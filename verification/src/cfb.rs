//! The compound file container: header decoding, FAT and MiniFAT assembly,
//! directory decoding, tree flattening and stream materialization.

use vstd::prelude::*;
use crate::MsgError;
use crate::bytes::{le16, le32, read_le16, read_le32, copy_range};
use crate::fat::{ENDOFCHAIN, FREESECT, chain_from, entries_of, parse_entries, follow_chain,
    lemma_chain_fuel};

verus! {

/// Size in bytes of the fixed header at the start of every compound file.
pub const HEADER_SIZE: usize = 512;

/// Major version with 512-byte sectors.
pub const V3: u16 = 0x0003;

/// Major version with 4096-byte sectors.
pub const V4: u16 = 0x0004;

/// The fixed 512-byte header of a compound file.
#[derive(Debug, Clone, PartialEq, Eq)]
pub struct CompoundFileHeader {
    pub signature: Vec<u8>,
    pub clsid: Vec<u8>,
    pub version_minor: u16,
    pub version_major: u16,
    pub byte_order: u16,
    pub sector_shift: u16,
    pub mini_sector_shift: u16,
    pub reserved: Vec<u8>,
    pub dir_sectors: u32,
    pub fat_sectors: u32,
    pub dir_first_sector: u32,
    pub tx_sig_num: u32,
    pub mini_stream_cutoff_size: u32,
    pub minifat_first_sector: u32,
    pub minifat_sectors: u32,
    pub difat_first_sector: u32,
    pub difat_sectors: u32,
    pub difat: Vec<u32>,
}

/// The mathematical image of a header: every field as a sequence or scalar.
pub struct HeaderModel {
    pub signature: Seq<u8>,
    pub clsid: Seq<u8>,
    pub version_minor: u16,
    pub version_major: u16,
    pub byte_order: u16,
    pub sector_shift: u16,
    pub mini_sector_shift: u16,
    pub reserved: Seq<u8>,
    pub dir_sectors: u32,
    pub fat_sectors: u32,
    pub dir_first_sector: u32,
    pub tx_sig_num: u32,
    pub mini_stream_cutoff_size: u32,
    pub minifat_first_sector: u32,
    pub minifat_sectors: u32,
    pub difat_first_sector: u32,
    pub difat_sectors: u32,
    pub difat: Seq<u32>,
}

impl View for CompoundFileHeader {
    type V = HeaderModel;

    open spec fn view(&self) -> HeaderModel {
        HeaderModel {
            signature: self.signature@,
            clsid: self.clsid@,
            version_minor: self.version_minor,
            version_major: self.version_major,
            byte_order: self.byte_order,
            sector_shift: self.sector_shift,
            mini_sector_shift: self.mini_sector_shift,
            reserved: self.reserved@,
            dir_sectors: self.dir_sectors,
            fat_sectors: self.fat_sectors,
            dir_first_sector: self.dir_first_sector,
            tx_sig_num: self.tx_sig_num,
            mini_stream_cutoff_size: self.mini_stream_cutoff_size,
            minifat_first_sector: self.minifat_first_sector,
            minifat_sectors: self.minifat_sectors,
            difat_first_sector: self.difat_first_sector,
            difat_sectors: self.difat_sectors,
            difat: self.difat@,
        }
    }
}

/// Whether the first eight bytes of `b` are the compound file magic.
pub open spec fn signature_ok(b: Seq<u8>) -> bool {
    &&& b.len() >= 8
    &&& b[0] == 0xD0u8
    &&& b[1] == 0xCFu8
    &&& b[2] == 0x11u8
    &&& b[3] == 0xE0u8
    &&& b[4] == 0xA1u8
    &&& b[5] == 0xB1u8
    &&& b[6] == 0x1Au8
    &&& b[7] == 0xE1u8
}

/// The header fields laid out at their fixed offsets in `b`.
pub open spec fn spec_header_fields(b: Seq<u8>) -> HeaderModel
    recommends
        b.len() >= HEADER_SIZE,
{
    HeaderModel {
        signature: b.subrange(0, 8),
        clsid: b.subrange(8, 24),
        version_minor: le16(b, 24),
        version_major: le16(b, 26),
        byte_order: le16(b, 28),
        sector_shift: le16(b, 30),
        mini_sector_shift: le16(b, 32),
        reserved: b.subrange(34, 40),
        dir_sectors: le32(b, 40),
        fat_sectors: le32(b, 44),
        dir_first_sector: le32(b, 48),
        tx_sig_num: le32(b, 52),
        mini_stream_cutoff_size: le32(b, 56),
        minifat_first_sector: le32(b, 60),
        minifat_sectors: le32(b, 64),
        difat_first_sector: le32(b, 68),
        difat_sectors: le32(b, 72),
        difat: Seq::new(109, |i: int| le32(b, 76 + 4 * i)),
    }
}

/// Header decoding: the magic must match; nothing else is rejected here.
pub open spec fn spec_parse_header(b: Seq<u8>) -> Result<HeaderModel, MsgError> {
    if b.len() < HEADER_SIZE {
        Err(MsgError::TruncatedInput)
    } else if !signature_ok(b) {
        Err(MsgError::BadSignature)
    } else {
        Ok(spec_header_fields(b))
    }
}

/// Whether the major version and the sector shift agree on one of the two
/// supported layouts: version 3 with 512-byte sectors or version 4 with
/// 4096-byte ones.
pub open spec fn version_ok(h: HeaderModel) -> bool {
    ||| h.version_major == V3 && h.sector_shift == 9
    ||| h.version_major == V4 && h.sector_shift == 12
}

/// The sector size fixed by the (already validated) version.
pub open spec fn ssz(h: HeaderModel) -> int
    recommends
        version_ok(h),
{
    if h.version_major == V4 {
        4096
    } else {
        512
    }
}

impl CompoundFileHeader {
    /// The sector size in bytes: two to the power of `sector_shift`.
    pub fn sector_size(&self) -> (r: usize)
        requires
            self.sector_shift < 32,
        ensures
            r == (1usize << (self.sector_shift as usize)),
            version_ok(self@) ==> r == ssz(self@),
    {
        let sh: usize = self.sector_shift as usize;
        if sh < 32 {
            let r = 1usize << sh;
            proof {
                if self@.version_major == V3 && self@.sector_shift == 9 {
                    assert(1usize << 9usize == 512usize) by (bit_vector);
                }
                if self@.version_major == V4 && self@.sector_shift == 12 {
                    assert(1usize << 12usize == 4096usize) by (bit_vector);
                }
            }
            r
        } else {
            proof {
                assert(false);
            }
            0
        }
    }

    /// The byte offset of sector `sector`: the header occupies the space
    /// before sector 0, so sector `s` starts at `(s + 1) * sector_size`.
    pub fn sector_offset(&self, sector: u32) -> (r: usize)
        requires
            version_ok(self@),
            ((sector as int) + 1) * ssz(self@) <= usize::MAX,
        ensures
            r == ((sector as int) + 1) * ssz(self@),
    {
        let s1: usize = (sector as usize) + 1;
        if self.version_major == V4 {
            s1 * 4096
        } else {
            s1 * 512
        }
    }

    /// A fresh version-3 header with empty allocation structures.
    pub fn new_v3() -> (r: Self)
        ensures
            r@ == spec_new_header(V3, 9),
    {
        new_header(V3, 9)
    }

    /// A fresh version-4 header with empty allocation structures.
    pub fn new_v4() -> (r: Self)
        ensures
            r@ == spec_new_header(V4, 12),
    {
        new_header(V4, 12)
    }

    /// Decodes the fixed 512-byte header from the start of `input`.
    pub fn parse(input: &[u8]) -> (r: Result<Self, MsgError>)
        ensures
            r matches Ok(h) ==> spec_parse_header(input@) == Ok::<HeaderModel, MsgError>(h@),
            r matches Err(e) ==> spec_parse_header(input@) == Err::<HeaderModel, MsgError>(e),
    {
        if input.len() < HEADER_SIZE {
            return Err(MsgError::TruncatedInput);
        }
        if !(input[0] == 0xD0 && input[1] == 0xCF && input[2] == 0x11 && input[3] == 0xE0
            && input[4] == 0xA1 && input[5] == 0xB1 && input[6] == 0x1A && input[7] == 0xE1) {
            return Err(MsgError::BadSignature);
        }
        let signature = copy_range(input, 0, 8);
        let clsid = copy_range(input, 8, 16);
        let reserved = copy_range(input, 34, 6);
        let mut difat: Vec<u32> = Vec::new();
        let mut i: usize = 0;
        while i < 109
            invariant
                i <= 109,
                input@.len() >= HEADER_SIZE,
                difat@ == Seq::new(i as nat, |k: int| le32(input@, 76 + 4 * k)),
            decreases 109 - i,
        {
            difat.push(read_le32(input, 76 + 4 * i));
            assert(difat@ =~= Seq::new((i + 1) as nat, |k: int| le32(input@, 76 + 4 * k)));
            i = i + 1;
        }
        let h = CompoundFileHeader {
            signature,
            clsid,
            version_minor: read_le16(input, 24),
            version_major: read_le16(input, 26),
            byte_order: read_le16(input, 28),
            sector_shift: read_le16(input, 30),
            mini_sector_shift: read_le16(input, 32),
            reserved,
            dir_sectors: read_le32(input, 40),
            fat_sectors: read_le32(input, 44),
            dir_first_sector: read_le32(input, 48),
            tx_sig_num: read_le32(input, 52),
            mini_stream_cutoff_size: read_le32(input, 56),
            minifat_first_sector: read_le32(input, 60),
            minifat_sectors: read_le32(input, 64),
            difat_first_sector: read_le32(input, 68),
            difat_sectors: read_le32(input, 72),
            difat,
        };
        proof {
            assert(signature_ok(input@));
            assert(h@.signature =~= input@.subrange(0, 8));
            assert(h@.clsid =~= input@.subrange(8, 24));
            assert(h@.reserved =~= input@.subrange(34, 40));
        }
        Ok(h)
    }
}

/// The value of a freshly built header for the given version and shift.
pub open spec fn spec_new_header(major: u16, shift: u16) -> HeaderModel {
    HeaderModel {
        signature: seq![0xD0u8, 0xCFu8, 0x11u8, 0xE0u8, 0xA1u8, 0xB1u8, 0x1Au8, 0xE1u8],
        clsid: Seq::new(16, |i: int| 0u8),
        version_minor: 0x003E,
        version_major: major,
        byte_order: 0xFFFE,
        sector_shift: shift,
        mini_sector_shift: 0x0006,
        reserved: Seq::new(6, |i: int| 0u8),
        dir_sectors: 0,
        fat_sectors: 0,
        dir_first_sector: ENDOFCHAIN,
        tx_sig_num: 0,
        mini_stream_cutoff_size: 0x00001000,
        minifat_first_sector: ENDOFCHAIN,
        minifat_sectors: 0,
        difat_first_sector: ENDOFCHAIN,
        difat_sectors: 0,
        difat: Seq::new(109, |i: int| 0u32),
    }
}

fn new_header(major: u16, shift: u16) -> (r: CompoundFileHeader)
    ensures
        r@ == spec_new_header(major, shift),
{
    let mut signature: Vec<u8> = Vec::new();
    signature.push(0xD0);
    signature.push(0xCF);
    signature.push(0x11);
    signature.push(0xE0);
    signature.push(0xA1);
    signature.push(0xB1);
    signature.push(0x1A);
    signature.push(0xE1);
    let mut clsid: Vec<u8> = Vec::new();
    let mut i: usize = 0;
    while i < 16
        invariant
            i <= 16,
            clsid@ == Seq::new(i as nat, |k: int| 0u8),
        decreases 16 - i,
    {
        clsid.push(0);
        assert(clsid@ =~= Seq::new((i + 1) as nat, |k: int| 0u8));
        i = i + 1;
    }
    let mut reserved: Vec<u8> = Vec::new();
    let mut j: usize = 0;
    while j < 6
        invariant
            j <= 6,
            reserved@ == Seq::new(j as nat, |k: int| 0u8),
        decreases 6 - j,
    {
        reserved.push(0);
        assert(reserved@ =~= Seq::new((j + 1) as nat, |k: int| 0u8));
        j = j + 1;
    }
    let mut difat: Vec<u32> = Vec::new();
    let mut d: usize = 0;
    while d < 109
        invariant
            d <= 109,
            difat@ == Seq::new(d as nat, |k: int| 0u32),
        decreases 109 - d,
    {
        difat.push(0);
        assert(difat@ =~= Seq::new((d + 1) as nat, |k: int| 0u32));
        d = d + 1;
    }
    let r = CompoundFileHeader {
        signature,
        clsid,
        version_minor: 0x003E,
        version_major: major,
        byte_order: 0xFFFE,
        sector_shift: shift,
        mini_sector_shift: 0x0006,
        reserved,
        dir_sectors: 0,
        fat_sectors: 0,
        dir_first_sector: ENDOFCHAIN,
        tx_sig_num: 0,
        mini_stream_cutoff_size: 0x00001000,
        minifat_first_sector: ENDOFCHAIN,
        minifat_sectors: 0,
        difat_first_sector: ENDOFCHAIN,
        difat_sectors: 0,
        difat,
    };
    proof {
        assert(r@.signature =~= spec_new_header(major, shift).signature);
    }
    r
}

/// `Ok(pre + r)` when `r` holds a sequence, else the same error.
pub open spec fn rprepend<T>(pre: Seq<T>, r: Result<Seq<T>, MsgError>) -> Result<
    Seq<T>,
    MsgError,
> {
    match r {
        Ok(rest) => Ok(pre + rest),
        Err(e) => Err(e),
    }
}

/// Whether sector `s` lies entirely within the byte image `b`.
pub open spec fn sector_in_bounds(b: Seq<u8>, h: HeaderModel, s: u32) -> bool {
    ((s as int) + 2) * ssz(h) <= b.len()
}

/// The bytes of sector `s` of the image `b`.
pub open spec fn sector_slice(b: Seq<u8>, h: HeaderModel, s: u32) -> Seq<u8>
    recommends
        sector_in_bounds(b, h, s),
{
    b.subrange(((s as int) + 1) * ssz(h), ((s as int) + 2) * ssz(h))
}

/// The allocation-table entries held by sector `s`.
pub open spec fn sector_entries(b: Seq<u8>, h: HeaderModel, s: u32) -> Seq<u32> {
    entries_of(sector_slice(b, h, s), ssz(h) / 4)
}

/// Borrows the bytes of sector `s`, or fails when the image is too short.
fn get_sector<'a>(b: &'a [u8], header: &CompoundFileHeader, s: u32) -> (r: Result<
    &'a [u8],
    MsgError,
>)
    requires
        version_ok(header@),
    ensures
        sector_in_bounds(b@, header@, s) ==> (r matches Ok(sec) && sec@ == sector_slice(
            b@,
            header@,
            s,
        )),
        !sector_in_bounds(b@, header@, s) ==> (r matches Err(e) && e == MsgError::TruncatedInput),
{
    let size: usize = header.sector_size();
    let end: u64 = ((s as u64) + 2) * (size as u64);
    if end > (b.len() as u64) {
        return Err(MsgError::TruncatedInput);
    }
    proof {
        assert(((s as int) + 1) * ssz(header@) + ssz(header@) == ((s as int) + 2) * ssz(
            header@,
        )) by (nonlinear_arith);
        assert(((s as int) + 1) * ssz(header@) >= 0) by (nonlinear_arith);
    }
    let off: usize = header.sector_offset(s);
    Ok(vstd::slice::slice_subrange(b, off, off + size))
}

/// The FAT entries contributed by the FAT sectors `ptrs[j..]`, stopping at
/// the first `FREESECT` entry.
pub open spec fn spec_fat_sectors(b: Seq<u8>, h: HeaderModel, ptrs: Seq<u32>, j: int) -> Result<
    Seq<u32>,
    MsgError,
>
    decreases ptrs.len() - j,
{
    if j < 0 || j >= ptrs.len() || ptrs[j] == FREESECT {
        Ok(Seq::empty())
    } else if !sector_in_bounds(b, h, ptrs[j]) {
        Err(MsgError::TruncatedInput)
    } else {
        rprepend(sector_entries(b, h, ptrs[j]), spec_fat_sectors(b, h, ptrs, j + 1))
    }
}

/// The FAT entries contributed by the DIFAT chain starting at sector `s`:
/// every DIFAT sector lists FAT sectors and ends with the next DIFAT sector.
pub open spec fn spec_fat_chained(b: Seq<u8>, h: HeaderModel, s: u32, fuel: nat) -> Result<
    Seq<u32>,
    MsgError,
>
    decreases fuel,
{
    if s == ENDOFCHAIN {
        Ok(Seq::empty())
    } else if fuel == 0 {
        Err(MsgError::ChainLengthMismatch)
    } else if !sector_in_bounds(b, h, s) {
        Err(MsgError::TruncatedInput)
    } else {
        let ents = sector_entries(b, h, s);
        let ptrs = ents.take(ents.len() - 1);
        match spec_fat_sectors(b, h, ptrs, 0) {
            Ok(part) => match spec_fat_chained(b, h, ents.last(), (fuel - 1) as nat) {
                Ok(rest) => Ok(part + rest),
                Err(e) => Err(e),
            },
            Err(e) => Err(e),
        }
    }
}

/// An upper bound on how many sectors fit in the image: fuel for walks that
/// only a malformed cyclic structure could exceed.
pub open spec fn sector_cap(b: Seq<u8>, h: HeaderModel) -> nat
    recommends
        version_ok(h),
{
    (b.len() as int / ssz(h) + 1) as nat
}

/// Appends the bytes of `s` to `acc`.
pub(crate) fn push_slice(acc: &mut Vec<u8>, s: &[u8])
    ensures
        final(acc)@ == old(acc)@ + s@,
{
    let n: usize = s.len();
    let mut k: usize = 0;
    while k < n
        invariant
            k <= n,
            n == s@.len(),
            acc@ == old(acc)@ + s@.subrange(0, k as int),
        decreases n - k,
    {
        acc.push(s[k]);
        assert(acc@ =~= old(acc)@ + s@.subrange(0, (k + 1) as int));
        k = k + 1;
    }
    proof {
        assert(acc@ =~= old(acc)@ + s@);
    }
}

/// Reads the allocation-table entries of FAT sectors `ptrs[0..]` into `acc`,
/// stopping at the first `FREESECT` pointer.
fn add_fat_sectors(bytes: &[u8], header: &CompoundFileHeader, ptrs: &Vec<u32>, acc: &mut Vec<
    u32,
>) -> (r: Result<(), MsgError>)
    requires
        version_ok(header@),
    ensures
        r matches Ok(u) ==> spec_fat_sectors(bytes@, header@, ptrs@, 0) == Ok::<_, MsgError>(
            final(acc)@.skip(old(acc)@.len() as int),
        ) && final(acc)@.len() >= old(acc)@.len() && final(acc)@.subrange(
            0,
            old(acc)@.len() as int,
        ) == old(acc)@,
        r matches Err(e) ==> spec_fat_sectors(bytes@, header@, ptrs@, 0) == Err::<Seq<u32>, _>(e),
{
    let ghost base = old(acc)@;
    let size: usize = header.sector_size();
    let n: usize = size / 4;
    let mut j: usize = 0;
    loop
        invariant
            version_ok(header@),
            size == ssz(header@),
            n == ssz(header@) / 4,
            base == old(acc)@,
            j <= ptrs@.len(),
            acc@.len() >= base.len(),
            acc@.subrange(0, base.len() as int) == base,
            spec_fat_sectors(bytes@, header@, ptrs@, 0) == rprepend(
                acc@.skip(base.len() as int),
                spec_fat_sectors(bytes@, header@, ptrs@, j as int),
            ),
        decreases ptrs@.len() - j,
    {
        if j >= ptrs.len() || ptrs[j] == FREESECT {
            proof {
                assert(spec_fat_sectors(bytes@, header@, ptrs@, j as int) == Ok::<_, MsgError>(
                    Seq::<u32>::empty(),
                ));
                assert(acc@.skip(base.len() as int) + Seq::<u32>::empty() =~= acc@.skip(
                    base.len() as int,
                ));
                assert(spec_fat_sectors(bytes@, header@, ptrs@, 0) == Ok::<_, MsgError>(
                    acc@.skip(base.len() as int),
                ));
                assert(acc@.len() >= base.len());
                assert(acc@.subrange(0, base.len() as int) == base);
            }
            return Ok(());
        }
        let s: u32 = ptrs[j];
        let sec = match get_sector(bytes, header, s) {
            Ok(sec) => sec,
            Err(e) => {
                return Err(e);
            },
        };
        let mut ents = match parse_entries(sec, n) {
            Ok(v) => v,
            Err(e) => {
                proof {
                    assert(false);
                }
                return Err(e);
            },
        };
        let ghost before = acc@;
        acc.append(&mut ents);
        proof {
            assert(acc@.subrange(0, base.len() as int) =~= base);
            let added = before.skip(base.len() as int);
            let ents_j = sector_entries(bytes@, header@, s);
            assert(acc@.skip(base.len() as int) =~= added + ents_j);
            match spec_fat_sectors(bytes@, header@, ptrs@, j + 1) {
                Ok(rest) => {
                    assert(added + (ents_j + rest) =~= (added + ents_j) + rest);
                },
                Err(e) => {},
            }
        }
        j = j + 1;
    }
}

/// The assembled FAT: the inline DIFAT's sectors followed by the chained
/// DIFAT's, under a version that must be 3 or 4.
pub open spec fn spec_fat(b: Seq<u8>, h: HeaderModel) -> Result<Seq<u32>, MsgError> {
    if !version_ok(h) {
        Err(MsgError::UnsupportedVersion)
    } else {
        match spec_fat_sectors(b, h, h.difat, 0) {
            Ok(inline) => match spec_fat_chained(b, h, h.difat_first_sector, sector_cap(b, h)) {
                Ok(chained) => Ok(inline + chained),
                Err(e) => Err(e),
            },
            Err(e) => Err(e),
        }
    }
}

/// Assembles the FAT from the header's inline DIFAT and the DIFAT chain.
pub fn build_fat(bytes: &[u8], header: &CompoundFileHeader) -> (r: Result<Vec<u32>, MsgError>)
    ensures
        r matches Ok(v) ==> spec_fat(bytes@, header@) == Ok::<_, MsgError>(v@),
        r matches Err(e) ==> spec_fat(bytes@, header@) == Err::<Seq<u32>, _>(e),
{
    let v3 = header.version_major == V3 && header.sector_shift == 9;
    let v4 = header.version_major == V4 && header.sector_shift == 12;
    if !(v3 || v4) {
        return Err(MsgError::UnsupportedVersion);
    }
    let size: usize = header.sector_size();
    let n: usize = size / 4;
    let mut fatv: Vec<u32> = Vec::new();
    match add_fat_sectors(bytes, header, &header.difat, &mut fatv) {
        Ok(u) => {},
        Err(e) => {
            return Err(e);
        },
    }
    proof {
        assert(fatv@.skip(0) =~= fatv@);
    }
    // Walk the DIFAT chain: each DIFAT sector lists FAT sectors and ends
    // with the pointer to the next DIFAT sector.
    let mut cur: u32 = header.difat_first_sector;
    let mut fuel: usize = bytes.len() / size + 1;
    proof {
        assert(fuel == sector_cap(bytes@, header@));
    }
    loop
        invariant
            version_ok(header@),
            size == ssz(header@),
            n == ssz(header@) / 4,
            spec_fat(bytes@, header@) == rprepend(
                fatv@,
                spec_fat_chained(bytes@, header@, cur, fuel as nat),
            ),
        decreases fuel,
    {
        if cur == ENDOFCHAIN {
            proof {
                assert(fatv@ + Seq::<u32>::empty() =~= fatv@);
            }
            return Ok(fatv);
        }
        if fuel == 0 {
            return Err(MsgError::ChainLengthMismatch);
        }
        let sec = match get_sector(bytes, header, cur) {
            Ok(sec) => sec,
            Err(e) => {
                return Err(e);
            },
        };
        let mut ents = match parse_entries(sec, n) {
            Ok(v) => v,
            Err(e) => {
                proof {
                    assert(false);
                }
                return Err(e);
            },
        };
        let next: u32 = ents[n - 1];
        ents.pop();
        proof {
            let all = sector_entries(bytes@, header@, cur);
            assert(ents@ =~= all.take(all.len() - 1));
            assert(next == all.last());
        }
        let ghost before = fatv@;
        match add_fat_sectors(bytes, header, &ents, &mut fatv) {
            Ok(u) => {},
            Err(e) => {
                return Err(e);
            },
        }
        proof {
            let part = fatv@.skip(before.len() as int);
            assert(fatv@ =~= before + part);
            match spec_fat_chained(bytes@, header@, next, (fuel - 1) as nat) {
                Ok(rest) => {
                    assert(before + (part + rest) =~= (before + part) + rest);
                },
                Err(e) => {},
            }
        }
        cur = next;
        fuel = fuel - 1;
    }
}

/// The allocation-table entries contributed by the sectors `chain[j..]`.
pub open spec fn spec_entries_chain(b: Seq<u8>, h: HeaderModel, chain: Seq<u32>, j: int) -> Result<
    Seq<u32>,
    MsgError,
>
    decreases chain.len() - j,
{
    if j < 0 || j >= chain.len() {
        Ok(Seq::empty())
    } else if !sector_in_bounds(b, h, chain[j]) {
        Err(MsgError::TruncatedInput)
    } else {
        rprepend(sector_entries(b, h, chain[j]), spec_entries_chain(b, h, chain, j + 1))
    }
}

/// The assembled MiniFAT: the chain starting at `minifat_first_sector`,
/// followed through the ordinary FAT.
pub open spec fn spec_minifat(b: Seq<u8>, h: HeaderModel, fat: Seq<u32>) -> Result<
    Seq<u32>,
    MsgError,
> {
    match chain_from(fat, h.minifat_first_sector, (fat.len() + 1) as nat) {
        None => Err(MsgError::ChainLengthMismatch),
        Some(c) => spec_entries_chain(b, h, c, 0),
    }
}

/// Assembles the MiniFAT by walking its chain through the FAT.
pub fn build_minifat(bytes: &[u8], header: &CompoundFileHeader, fat: &Vec<u32>) -> (r: Result<
    Vec<u32>,
    MsgError,
>)
    requires
        version_ok(header@),
    ensures
        r matches Ok(v) ==> spec_minifat(bytes@, header@, fat@) == Ok::<_, MsgError>(v@),
        r matches Err(e) ==> spec_minifat(bytes@, header@, fat@) == Err::<Seq<u32>, _>(e),
{
    let chain = match follow_chain(fat, header.minifat_first_sector, fat.len()) {
        Ok(c) => c,
        Err(e) => {
            return Err(e);
        },
    };
    proof {
        lemma_chain_fuel(fat@, header@.minifat_first_sector, chain@.len() as nat, (fat@.len()
            + 1) as nat);
    }
    let size: usize = header.sector_size();
    let n: usize = size / 4;
    let mut out: Vec<u32> = Vec::new();
    let mut j: usize = 0;
    while j < chain.len()
        invariant
            version_ok(header@),
            size == ssz(header@),
            n == ssz(header@) / 4,
            j <= chain@.len(),
            spec_minifat(bytes@, header@, fat@) == rprepend(
                out@,
                spec_entries_chain(bytes@, header@, chain@, j as int),
            ),
        decreases chain@.len() - j,
    {
        let sec = match get_sector(bytes, header, chain[j]) {
            Ok(sec) => sec,
            Err(e) => {
                return Err(e);
            },
        };
        let mut ents = match parse_entries(sec, n) {
            Ok(v) => v,
            Err(e) => {
                proof {
                    assert(false);
                }
                return Err(e);
            },
        };
        let ghost before = out@;
        out.append(&mut ents);
        proof {
            let ents_j = sector_entries(bytes@, header@, chain@[j as int]);
            match spec_entries_chain(bytes@, header@, chain@, j + 1) {
                Ok(rest) => {
                    assert(before + (ents_j + rest) =~= (before + ents_j) + rest);
                },
                Err(e) => {},
            }
        }
        j = j + 1;
    }
    proof {
        assert(out@ + Seq::<u32>::empty() =~= out@);
    }
    Ok(out)
}

/// The bytes of the sectors `chain[j..]`, concatenated.
pub open spec fn spec_concat_sectors(b: Seq<u8>, h: HeaderModel, chain: Seq<u32>, j: int) -> Result<
    Seq<u8>,
    MsgError,
>
    decreases chain.len() - j,
{
    if j < 0 || j >= chain.len() {
        Ok(Seq::empty())
    } else if !sector_in_bounds(b, h, chain[j]) {
        Err(MsgError::TruncatedInput)
    } else {
        rprepend(sector_slice(b, h, chain[j]), spec_concat_sectors(b, h, chain, j + 1))
    }
}

/// A stream materialized through the FAT: the concatenation of its chain's
/// sectors, whose length must lie in `[size, size + sector_size)`, cut back
/// to `size`.
pub open spec fn spec_fat_data(
    b: Seq<u8>,
    h: HeaderModel,
    fat: Seq<u32>,
    start: u32,
    size: u64,
) -> Result<Seq<u8>, MsgError> {
    match chain_from(fat, start, (fat.len() + 1) as nat) {
        None => Err(MsgError::ChainLengthMismatch),
        Some(c) => match spec_concat_sectors(b, h, c, 0) {
            Err(e) => Err(e),
            Ok(data) => {
                if size > data.len() || data.len() >= size + ssz(h) {
                    Err(MsgError::ChainLengthMismatch)
                } else {
                    Ok(data.take(size as int))
                }
            },
        },
    }
}

/// Materializes a stream's bytes by following its FAT chain.
pub fn get_fat_data(
    bytes: &[u8],
    header: &CompoundFileHeader,
    fat: &Vec<u32>,
    start: u32,
    size: u64,
) -> (r: Result<Vec<u8>, MsgError>)
    requires
        version_ok(header@),
    ensures
        r matches Ok(d) ==> spec_fat_data(bytes@, header@, fat@, start, size) == Ok::<_, MsgError>(
            d@,
        ),
        r matches Err(e) ==> spec_fat_data(bytes@, header@, fat@, start, size) == Err::<Seq<u8>, _>(
            e,
        ),
{
    let chain = match follow_chain(fat, start, fat.len()) {
        Ok(c) => c,
        Err(e) => {
            return Err(e);
        },
    };
    proof {
        lemma_chain_fuel(fat@, start, chain@.len() as nat, (fat@.len() + 1) as nat);
    }
    let size_s: usize = header.sector_size();
    let mut data: Vec<u8> = Vec::new();
    let mut j: usize = 0;
    while j < chain.len()
        invariant
            version_ok(header@),
            size_s == ssz(header@),
            j <= chain@.len(),
            chain_from(fat@, start, (fat@.len() + 1) as nat) == Some(chain@),
            spec_concat_sectors(bytes@, header@, chain@, 0) == rprepend(
                data@,
                spec_concat_sectors(bytes@, header@, chain@, j as int),
            ),
        decreases chain@.len() - j,
    {
        let sec = match get_sector(bytes, header, chain[j]) {
            Ok(sec) => sec,
            Err(e) => {
                return Err(e);
            },
        };
        let ghost before = data@;
        push_slice(&mut data, sec);
        proof {
            let sec_j = sector_slice(bytes@, header@, chain@[j as int]);
            match spec_concat_sectors(bytes@, header@, chain@, j + 1) {
                Ok(rest) => {
                    assert(before + (sec_j + rest) =~= (before + sec_j) + rest);
                },
                Err(e) => {},
            }
        }
        j = j + 1;
    }
    proof {
        assert(data@ + Seq::<u8>::empty() =~= data@);
    }
    if size > (data.len() as u64) {
        return Err(MsgError::ChainLengthMismatch);
    }
    if (data.len() as u64) - size >= (size_s as u64) {
        return Err(MsgError::ChainLengthMismatch);
    }
    data.truncate(size as usize);
    proof {
        assert(data@ =~= spec_fat_data(bytes@, header@, fat@, start, size)->Ok_0);
    }
    Ok(data)
}

/// The bytes of the mini-sectors `chain[j..]` cut out of the mini stream.
pub open spec fn spec_concat_mini(mini: Seq<u8>, chain: Seq<u32>, j: int) -> Result<
    Seq<u8>,
    MsgError,
>
    decreases chain.len() - j,
{
    if j < 0 || j >= chain.len() {
        Ok(Seq::empty())
    } else if (chain[j] as int) * 64 + 64 > mini.len() {
        Err(MsgError::ChainLengthMismatch)
    } else {
        rprepend(
            mini.subrange((chain[j] as int) * 64, (chain[j] as int) * 64 + 64),
            spec_concat_mini(mini, chain, j + 1),
        )
    }
}

/// `data` brought to exactly `size` bytes: cut back or padded with zeros.
pub open spec fn fit_to(data: Seq<u8>, size: u64) -> Seq<u8> {
    if data.len() >= size {
        data.take(size as int)
    } else {
        data + Seq::new((size - data.len()) as nat, |i: int| 0u8)
    }
}

/// A stream materialized through the MiniFAT: 64-byte mini-sectors of the
/// mini stream, concatenated and brought to the recorded size.
pub open spec fn spec_mini_data(mini: Seq<u8>, minifat: Seq<u32>, start: u32, size: u64) -> Result<
    Seq<u8>,
    MsgError,
> {
    match chain_from(minifat, start, (minifat.len() + 1) as nat) {
        None => Err(MsgError::ChainLengthMismatch),
        Some(c) => match spec_concat_mini(mini, c, 0) {
            Err(e) => Err(e),
            Ok(data) => Ok(fit_to(data, size)),
        },
    }
}

/// Materializes a small stream's bytes out of the mini stream.
pub fn get_minifat_data(minifat: &Vec<u32>, mini: &Vec<u8>, start: u32, size: u64) -> (r: Result<
    Vec<u8>,
    MsgError,
>)
    requires
        size <= usize::MAX,
    ensures
        r matches Ok(d) ==> spec_mini_data(mini@, minifat@, start, size) == Ok::<_, MsgError>(d@),
        r matches Err(e) ==> spec_mini_data(mini@, minifat@, start, size) == Err::<Seq<u8>, _>(e),
{
    let chain = match follow_chain(minifat, start, minifat.len()) {
        Ok(c) => c,
        Err(e) => {
            return Err(e);
        },
    };
    proof {
        lemma_chain_fuel(minifat@, start, chain@.len() as nat, (minifat@.len() + 1) as nat);
    }
    let mut data: Vec<u8> = Vec::new();
    let mut j: usize = 0;
    while j < chain.len()
        invariant
            j <= chain@.len(),
            chain_from(minifat@, start, (minifat@.len() + 1) as nat) == Some(chain@),
            spec_concat_mini(mini@, chain@, 0) == rprepend(
                data@,
                spec_concat_mini(mini@, chain@, j as int),
            ),
        decreases chain@.len() - j,
    {
        let s: u32 = chain[j];
        let end: u64 = (s as u64) * 64 + 64;
        if end > (mini.len() as u64) {
            return Err(MsgError::ChainLengthMismatch);
        }
        let off: usize = (s as usize) * 64;
        let ghost before = data@;
        push_slice(&mut data, vstd::slice::slice_subrange(mini.as_slice(), off, off + 64));
        proof {
            let sec_j = mini@.subrange((s as int) * 64, (s as int) * 64 + 64);
            match spec_concat_mini(mini@, chain@, j + 1) {
                Ok(rest) => {
                    assert(before + (sec_j + rest) =~= (before + sec_j) + rest);
                },
                Err(e) => {},
            }
        }
        j = j + 1;
    }
    proof {
        assert(data@ + Seq::<u8>::empty() =~= data@);
    }
    // Bring the materialized bytes to the recorded stream size.
    if (data.len() as u64) >= size {
        data.truncate(size as usize);
    } else {
        let ghost grown = data@;
        while (data.len() as u64) < size
            invariant
                size <= usize::MAX,
                data@.len() <= size,
                grown.len() <= data@.len(),
                data@ == grown + Seq::new((data@.len() - grown.len()) as nat, |i: int| 0u8),
            decreases size - data@.len(),
        {
            data.push(0);
            assert(data@ =~= grown + Seq::new((data@.len() - grown.len()) as nat, |i: int| 0u8));
        }
    }
    proof {
        assert(data@ =~= spec_mini_data(mini@, minifat@, start, size)->Ok_0);
    }
    Ok(data)
}

/// The directory records held by `sec[128*k ..]`, one per 128 bytes.
pub open spec fn spec_dir_entries_in(sec: Seq<u8>, k: int) -> Result<
    Seq<crate::dir::DirEntryModel>,
    MsgError,
>
    decreases sec.len() / 128 - k,
{
    if k < 0 || k >= sec.len() / 128 {
        Ok(Seq::empty())
    } else {
        match crate::dir::spec_dir_entry(sec.subrange(128 * k, 128 * k + 128)) {
            Err(e) => Err(e),
            Ok(d) => match spec_dir_entries_in(sec, k + 1) {
                Ok(rest) => Ok(seq![d] + rest),
                Err(e) => Err(e),
            },
        }
    }
}

/// The directory records of the sectors `chain[j..]`.
pub open spec fn spec_dir_chain(b: Seq<u8>, h: HeaderModel, chain: Seq<u32>, j: int) -> Result<
    Seq<crate::dir::DirEntryModel>,
    MsgError,
>
    decreases chain.len() - j,
{
    if j < 0 || j >= chain.len() {
        Ok(Seq::empty())
    } else if !sector_in_bounds(b, h, chain[j]) {
        Err(MsgError::TruncatedInput)
    } else {
        match spec_dir_entries_in(sector_slice(b, h, chain[j]), 0) {
            Err(e) => Err(e),
            Ok(part) => match spec_dir_chain(b, h, chain, j + 1) {
                Ok(rest) => Ok(part + rest),
                Err(e) => Err(e),
            },
        }
    }
}

/// The whole directory: the chain starting at `dir_first_sector`, each
/// sector holding `sector_size / 128` records.
pub open spec fn spec_directory(b: Seq<u8>, h: HeaderModel, fat: Seq<u32>) -> Result<
    Seq<crate::dir::DirEntryModel>,
    MsgError,
> {
    match chain_from(fat, h.dir_first_sector, (fat.len() + 1) as nat) {
        None => Err(MsgError::ChainLengthMismatch),
        Some(c) => spec_dir_chain(b, h, c, 0),
    }
}

/// The views of a sequence of directory entries.
pub open spec fn dirs_view(s: Seq<crate::dir::DirectoryEntry>) -> Seq<crate::dir::DirEntryModel> {
    s.map_values(|d: crate::dir::DirectoryEntry| d@)
}

/// Parses the whole directory by walking its chain through the FAT.
#[verifier::rlimit(100)]
pub fn build_directory(bytes: &[u8], header: &CompoundFileHeader, fat: &Vec<u32>) -> (r: Result<
    Vec<crate::dir::DirectoryEntry>,
    MsgError,
>)
    requires
        version_ok(header@),
    ensures
        r matches Ok(v) ==> spec_directory(bytes@, header@, fat@) == Ok::<_, MsgError>(
            dirs_view(v@),
        ),
        r matches Err(e) ==> spec_directory(bytes@, header@, fat@) == Err::<
            Seq<crate::dir::DirEntryModel>,
            _,
        >(e),
{
    let chain = match follow_chain(fat, header.dir_first_sector, fat.len()) {
        Ok(c) => c,
        Err(e) => {
            return Err(e);
        },
    };
    proof {
        lemma_chain_fuel(fat@, header@.dir_first_sector, chain@.len() as nat, (fat@.len()
            + 1) as nat);
    }
    let size: usize = header.sector_size();
    let per: usize = size / 128;
    let mut dirs: Vec<crate::dir::DirectoryEntry> = Vec::new();
    let mut j: usize = 0;
    while j < chain.len()
        invariant
            version_ok(header@),
            size == ssz(header@),
            per == ssz(header@) / 128,
            j <= chain@.len(),
            chain_from(fat@, header@.dir_first_sector, (fat@.len() + 1) as nat) == Some(chain@),
            spec_dir_chain(bytes@, header@, chain@, 0) == (match spec_dir_chain(
                bytes@,
                header@,
                chain@,
                j as int,
            ) {
                Ok(rest) => Ok::<_, MsgError>(dirs_view(dirs@) + rest),
                Err(e) => Err::<Seq<crate::dir::DirEntryModel>, _>(e),
            }),
        decreases chain@.len() - j,
    {
        let sec = match get_sector(bytes, header, chain[j]) {
            Ok(sec) => sec,
            Err(e) => {
                return Err(e);
            },
        };
        proof {
            let si = chain@[j as int] as int;
            let z = ssz(header@);
            assert((si + 2) * z - (si + 1) * z == z) by (nonlinear_arith);
            assert(sec@.len() == z);
        }
        let mut k: usize = 0;
        while k < per
            invariant
                version_ok(header@),
                size == ssz(header@),
                per == ssz(header@) / 128,
                j < chain@.len(),
                k <= per,
                sec@ == sector_slice(bytes@, header@, chain@[j as int]),
                sec@.len() == ssz(header@),
                chain_from(fat@, header@.dir_first_sector, (fat@.len() + 1) as nat) == Some(
                    chain@,
                ),
                dirs@.len() >= k,
                spec_dir_chain(bytes@, header@, chain@, 0) == (match (match spec_dir_entries_in(
                    sec@,
                    k as int,
                ) {
                    Err(e) => Err::<Seq<crate::dir::DirEntryModel>, MsgError>(e),
                    Ok(part) => match spec_dir_chain(bytes@, header@, chain@, j + 1) {
                        Ok(rest) => Ok::<_, MsgError>(part + rest),
                        Err(e) => Err::<Seq<crate::dir::DirEntryModel>, _>(e),
                    },
                }) {
                    Ok(tail) => Ok::<_, MsgError>(dirs_view(dirs@) + tail),
                    Err(e) => Err::<Seq<crate::dir::DirEntryModel>, _>(e),
                }),
            decreases per - k,
        {
            let rec = vstd::slice::slice_subrange(sec, 128 * k, 128 * k + 128);
            let d = match crate::dir::DirectoryEntry::parse(rec) {
                Ok(d) => d,
                Err(e) => {
                    proof {
                        assert(rec@ =~= sec@.subrange(128 * (k as int), 128 * (k as int) + 128));
                    }
                    return Err(e);
                },
            };
            let ghost before = dirs@;
            dirs.push(d);
            proof {
                assert(rec@ =~= sec@.subrange(128 * (k as int), 128 * (k as int) + 128));
                assert(dirs_view(dirs@) =~= dirs_view(before) + seq![d@]);
                match spec_dir_entries_in(sec@, k + 1) {
                    Ok(part2) => {
                        match spec_dir_chain(bytes@, header@, chain@, j + 1) {
                            Ok(rest) => {
                                assert(dirs_view(before) + ((seq![d@] + part2) + rest) =~= (
                                dirs_view(before) + seq![d@]) + (part2 + rest));
                            },
                            Err(e) => {},
                        }
                    },
                    Err(e) => {},
                }
            }
            k = k + 1;
        }
        proof {
            assert(spec_dir_entries_in(sec@, per as int) == Ok::<_, MsgError>(Seq::<
                crate::dir::DirEntryModel,
            >::empty()));
            match spec_dir_chain(bytes@, header@, chain@, j + 1) {
                Ok(rest) => {
                    assert(Seq::<crate::dir::DirEntryModel>::empty() + rest =~= rest);
                },
                Err(e) => {},
            }
        }
        j = j + 1;
    }
    proof {
        assert(dirs_view(dirs@) + Seq::<crate::dir::DirEntryModel>::empty() =~= dirs_view(dirs@));
    }
    Ok(dirs)
}

/// Whether some id in `ids` names a directory entry called `name`.
pub open spec fn name_among(
    dirs: Seq<crate::dir::DirEntryModel>,
    ids: Seq<u32>,
    name: Seq<u8>,
) -> bool {
    exists|i: int|
        0 <= i < ids.len() && (ids[i] as int) < dirs.len() && dirs[ids[i] as int].name_raw == name
}

/// Scans `ids` for an entry whose name is `name`.
fn has_name(dirs: &Vec<crate::dir::DirectoryEntry>, ids: &Vec<u32>, name: &Vec<u8>) -> (r: bool)
    ensures
        r == name_among(dirs_view(dirs@), ids@, name@),
{
    let mut i: usize = 0;
    while i < ids.len()
        invariant
            i <= ids@.len(),
            !(exists|k: int|
                0 <= k < i && (ids@[k] as int) < dirs_view(dirs@).len() && dirs_view(
                    dirs@,
                )[ids@[k] as int].name_raw == name@),
        decreases ids@.len() - i,
    {
        let id = ids[i];
        if (id as usize) < dirs.len() {
            if crate::strings::bytes_eq(&dirs[id as usize].name_raw, name) {
                return true;
            }
        }
        i = i + 1;
    }
    false
}

/// One step of the directory walk: insert `node` as a child of `parent`,
/// fail on an out-of-range id, a revisited entry or a duplicate name, then
/// walk its siblings under the same parent and its own subtree under it.
pub open spec fn spec_visit(
    dirs: Seq<crate::dir::DirEntryModel>,
    cm: Seq<Seq<u32>>,
    vis: Seq<bool>,
    parent: int,
    node: u32,
    fuel: nat,
) -> Result<(Seq<Seq<u32>>, Seq<bool>), MsgError>
    decreases fuel,
{
    if fuel == 0 {
        Err(MsgError::DirectoryCycle)
    } else if (node as int) >= dirs.len() {
        Err(MsgError::InvalidChildId)
    } else if vis[node as int] {
        Err(MsgError::DirectoryCycle)
    } else if name_among(dirs, cm[parent], dirs[node as int].name_raw) {
        Err(MsgError::DuplicateName)
    } else {
        let cm1 = cm.update(parent, cm[parent].push(node));
        let vis1 = vis.update(node as int, true);
        let d = dirs[node as int];
        let r1 = if d.left_sibling_id != crate::dir::NOSTREAM {
            spec_visit(dirs, cm1, vis1, parent, d.left_sibling_id, (fuel - 1) as nat)
        } else {
            Ok((cm1, vis1))
        };
        match r1 {
            Err(e) => Err(e),
            Ok((cm2, vis2)) => {
                let r2 = if d.right_sibling_id != crate::dir::NOSTREAM {
                    spec_visit(dirs, cm2, vis2, parent, d.right_sibling_id, (fuel - 1) as nat)
                } else {
                    Ok((cm2, vis2))
                };
                match r2 {
                    Err(e) => Err(e),
                    Ok((cm3, vis3)) => {
                        if d.child_id != crate::dir::NOSTREAM {
                            spec_visit(dirs, cm3, vis3, node as int, d.child_id, (fuel - 1) as nat)
                        } else {
                            Ok((cm3, vis3))
                        }
                    },
                }
            },
        }
    }
}

/// The flattened directory tree: each storage's children, by id.
pub open spec fn spec_tree(dirs: Seq<crate::dir::DirEntryModel>) -> Result<Seq<Seq<u32>>, MsgError> {
    let cm0 = Seq::new(dirs.len(), |i: int| Seq::<u32>::empty());
    let vis0 = Seq::new(dirs.len(), |i: int| false);
    if dirs.len() == 0 {
        Ok(cm0)
    } else if dirs[0].child_id == crate::dir::NOSTREAM {
        Ok(cm0)
    } else {
        match spec_visit(dirs, cm0, vis0, 0, dirs[0].child_id, dirs.len()) {
            Ok((cm, vis)) => Ok(cm),
            Err(e) => Err(e),
        }
    }
}

fn visit(
    dirs: &Vec<crate::dir::DirectoryEntry>,
    cm: &mut Vec<Vec<u32>>,
    vis: &mut Vec<bool>,
    parent: usize,
    node: u32,
    fuel: usize,
) -> (r: Result<(), MsgError>)
    requires
        (parent as int) < dirs@.len(),
        old(cm)@.len() == dirs@.len(),
        old(vis)@.len() == dirs@.len(),
    ensures
        final(cm)@.len() == dirs@.len(),
        final(vis)@.len() == dirs@.len(),
        r matches Ok(u) ==> spec_visit(
            dirs_view(dirs@),
            old(cm).deep_view(),
            old(vis)@,
            parent as int,
            node,
            fuel as nat,
        ) == Ok::<_, MsgError>((final(cm).deep_view(), final(vis)@)),
        r matches Err(e) ==> spec_visit(
            dirs_view(dirs@),
            old(cm).deep_view(),
            old(vis)@,
            parent as int,
            node,
            fuel as nat,
        ) == Err::<(Seq<Seq<u32>>, Seq<bool>), _>(e),
    decreases fuel,
{
    if fuel == 0 {
        return Err(MsgError::DirectoryCycle);
    }
    if (node as usize) >= dirs.len() {
        return Err(MsgError::InvalidChildId);
    }
    if vis[node as usize] {
        return Err(MsgError::DirectoryCycle);
    }
    proof {
        assert(cm.deep_view()[parent as int] =~= cm@[parent as int]@);
        assert(dirs_view(dirs@)[node as int] == dirs@[node as int]@);
    }
    if has_name(dirs, &cm[parent], &dirs[node as usize].name_raw) {
        return Err(MsgError::DuplicateName);
    }
    let ghost dv = dirs_view(dirs@);
    let ghost cm0 = cm.deep_view();
    let ghost vis0 = vis@;
    let mut lst: Vec<u32> = cm[parent].clone();
    lst.push(node);
    cm[parent] = lst;
    vis[node as usize] = true;
    proof {
        assert(cm.deep_view() =~~= cm0.update(parent as int, cm0[parent as int].push(node)));
        assert(vis@ =~= vis0.update(node as int, true));
    }
    let left = dirs[node as usize].left_sibling_id;
    let right = dirs[node as usize].right_sibling_id;
    let child = dirs[node as usize].child_id;
    if left != crate::dir::NOSTREAM {
        match visit(dirs, cm, vis, parent, left, fuel - 1) {
            Ok(u) => {},
            Err(e) => {
                return Err(e);
            },
        }
    }
    if right != crate::dir::NOSTREAM {
        match visit(dirs, cm, vis, parent, right, fuel - 1) {
            Ok(u) => {},
            Err(e) => {
                return Err(e);
            },
        }
    }
    if child != crate::dir::NOSTREAM {
        match visit(dirs, cm, vis, node as usize, child, fuel - 1) {
            Ok(u) => {},
            Err(e) => {
                return Err(e);
            },
        }
    }
    Ok(())
}

/// Builds each storage's child list by walking the sibling trees from the
/// root's `child_id`, visiting every entry at most once.
pub fn flatten_tree(dirs: &Vec<crate::dir::DirectoryEntry>) -> (r: Result<Vec<Vec<u32>>, MsgError>)
    ensures
        r matches Ok(cm) ==> spec_tree(dirs_view(dirs@)) == Ok::<_, MsgError>(cm.deep_view())
            && cm@.len() == dirs@.len(),
        r matches Err(e) ==> spec_tree(dirs_view(dirs@)) == Err::<Seq<Seq<u32>>, _>(e),
{
    let n: usize = dirs.len();
    let mut cm: Vec<Vec<u32>> = Vec::new();
    let mut vis: Vec<bool> = Vec::new();
    let mut i: usize = 0;
    while i < n
        invariant
            i <= n,
            cm@.len() == i,
            vis@.len() == i,
            forall|k: int| 0 <= k < i ==> (#[trigger] cm@[k])@ == Seq::<u32>::empty(),
            vis@ == Seq::new(i as nat, |k: int| false),
        decreases n - i,
    {
        cm.push(Vec::new());
        vis.push(false);
        proof {
            assert(vis@ =~= Seq::new((i + 1) as nat, |k: int| false));
        }
        i = i + 1;
    }
    proof {
        assert forall|k: int| 0 <= k < n implies cm.deep_view()[k] == Seq::<u32>::empty() by {
            assert(cm.deep_view()[k] == cm@[k].deep_view());
            assert(cm@[k].deep_view() =~= cm@[k]@);
        }
        assert(cm.deep_view() =~= Seq::new(n as nat, |k: int| Seq::<u32>::empty()));
    }
    if n == 0 {
        return Ok(cm);
    }
    let root_child = dirs[0].child_id;
    if root_child == crate::dir::NOSTREAM {
        return Ok(cm);
    }
    match visit(dirs, &mut cm, &mut vis, 0, root_child, n) {
        Ok(u) => Ok(cm),
        Err(e) => Err(e),
    }
}

/// Whether a child list holds only in-range ids with pairwise distinct names.
pub open spec fn ids_wf(dirs: Seq<crate::dir::DirEntryModel>, ids: Seq<u32>) -> bool {
    &&& forall|i: int| 0 <= i < ids.len() ==> (ids[i] as int) < dirs.len()
    &&& forall|i: int, j: int|
        0 <= i < j < ids.len() ==> dirs[ids[i] as int].name_raw != dirs[ids[j] as int].name_raw
}

/// Whether every storage's child list is well-formed: this is the name
/// uniqueness invariant of the directory tree.
pub open spec fn children_wf(dirs: Seq<crate::dir::DirEntryModel>, cm: Seq<Seq<u32>>) -> bool {
    &&& cm.len() == dirs.len()
    &&& forall|p: int| 0 <= p < cm.len() ==> ids_wf(dirs, #[trigger] cm[p])
}

/// The directory walk preserves well-formed child lists: ids stay in range
/// and sibling names stay pairwise distinct.
pub proof fn lemma_visit_wf(
    dirs: Seq<crate::dir::DirEntryModel>,
    cm: Seq<Seq<u32>>,
    vis: Seq<bool>,
    parent: int,
    node: u32,
    fuel: nat,
)
    requires
        children_wf(dirs, cm),
        vis.len() == dirs.len(),
        0 <= parent < dirs.len(),
    ensures
        spec_visit(dirs, cm, vis, parent, node, fuel) matches Ok(o) ==> children_wf(dirs, o.0)
            && o.1.len() == dirs.len(),
    decreases fuel,
{
    if fuel == 0 || (node as int) >= dirs.len() || vis[node as int] || name_among(
        dirs,
        cm[parent],
        dirs[node as int].name_raw,
    ) {
    } else {
        let cm1 = cm.update(parent, cm[parent].push(node));
        let vis1 = vis.update(node as int, true);
        let d = dirs[node as int];
        assert(ids_wf(dirs, cm1[parent])) by {
            let ids = cm[parent];
            let ids1 = cm1[parent];
            assert forall|i: int, j: int| 0 <= i < j < ids1.len() implies dirs[ids1[i] as int].name_raw
                != dirs[ids1[j] as int].name_raw by {
                if j == ids.len() {
                    // The pushed id's name is not among the existing ones.
                    assert(ids1[j] == node);
                    if dirs[ids1[i] as int].name_raw == d.name_raw {
                        assert(name_among(dirs, cm[parent], d.name_raw));
                    }
                }
            }
        }
        assert(children_wf(dirs, cm1));
        let r1 = if d.left_sibling_id != crate::dir::NOSTREAM {
            spec_visit(dirs, cm1, vis1, parent, d.left_sibling_id, (fuel - 1) as nat)
        } else {
            Ok((cm1, vis1))
        };
        if d.left_sibling_id != crate::dir::NOSTREAM {
            lemma_visit_wf(dirs, cm1, vis1, parent, d.left_sibling_id, (fuel - 1) as nat);
        }
        match r1 {
            Err(e) => {},
            Ok((cm2, vis2)) => {
                let r2 = if d.right_sibling_id != crate::dir::NOSTREAM {
                    spec_visit(dirs, cm2, vis2, parent, d.right_sibling_id, (fuel - 1) as nat)
                } else {
                    Ok((cm2, vis2))
                };
                if d.right_sibling_id != crate::dir::NOSTREAM {
                    lemma_visit_wf(dirs, cm2, vis2, parent, d.right_sibling_id, (fuel - 1) as nat);
                }
                match r2 {
                    Err(e) => {},
                    Ok((cm3, vis3)) => {
                        if d.child_id != crate::dir::NOSTREAM {
                            lemma_visit_wf(dirs, cm3, vis3, node as int, d.child_id, (fuel
                                - 1) as nat);
                        }
                    },
                }
            },
        }
    }
}

/// Name uniqueness: a directory tree that flattens successfully gives every
/// storage a child list of in-range ids with pairwise distinct names.
pub proof fn lemma_tree_wf(dirs: Seq<crate::dir::DirEntryModel>)
    ensures
        spec_tree(dirs) matches Ok(cm) ==> children_wf(dirs, cm),
{
    let cm0 = Seq::new(dirs.len(), |i: int| Seq::<u32>::empty());
    let vis0 = Seq::new(dirs.len(), |i: int| false);
    assert(children_wf(dirs, cm0));
    if dirs.len() == 0 || dirs[0].child_id == crate::dir::NOSTREAM {
    } else {
        lemma_visit_wf(dirs, cm0, vis0, 0, dirs[0].child_id, dirs.len());
    }
}

/// The bytes of one directory entry's stream: small streams come out of the
/// mini stream through the MiniFAT, large ones out of the image through the
/// FAT; asking a non-stream entry is an error.
pub open spec fn spec_entry_data(
    b: Seq<u8>,
    h: HeaderModel,
    fat: Seq<u32>,
    minifat: Seq<u32>,
    mini: Seq<u8>,
    d: crate::dir::DirEntryModel,
) -> Result<Seq<u8>, MsgError> {
    if d.object_type != crate::dir::OBJECT_STREAM {
        Err(MsgError::UnexpectedObjectType)
    } else if (d.stream_size as int) < (h.mini_stream_cutoff_size as int) {
        spec_mini_data(mini, minifat, d.starting_sector, d.stream_size)
    } else {
        spec_fat_data(b, h, fat, d.starting_sector, d.stream_size)
    }
}

/// Materializes the bytes of one directory entry's stream.
pub fn get_directory_data(
    bytes: &[u8],
    header: &CompoundFileHeader,
    fat: &Vec<u32>,
    minifat: &Vec<u32>,
    mini: &Vec<u8>,
    entry: &crate::dir::DirectoryEntry,
) -> (r: Result<Vec<u8>, MsgError>)
    requires
        version_ok(header@),
    ensures
        r matches Ok(d) ==> spec_entry_data(bytes@, header@, fat@, minifat@, mini@, entry@)
            == Ok::<_, MsgError>(d@),
        r matches Err(e) ==> spec_entry_data(bytes@, header@, fat@, minifat@, mini@, entry@)
            == Err::<Seq<u8>, _>(e),
{
    if entry.object_type != crate::dir::OBJECT_STREAM {
        return Err(MsgError::UnexpectedObjectType);
    }
    if entry.stream_size < (header.mini_stream_cutoff_size as u64) {
        get_minifat_data(minifat, mini, entry.starting_sector, entry.stream_size)
    } else {
        get_fat_data(bytes, header, fat, entry.starting_sector, entry.stream_size)
    }
}

/// The stream bytes of every entry `dirs[i..]`: empty for non-streams.
pub open spec fn spec_datas(
    b: Seq<u8>,
    h: HeaderModel,
    fat: Seq<u32>,
    minifat: Seq<u32>,
    mini: Seq<u8>,
    dirs: Seq<crate::dir::DirEntryModel>,
    i: int,
) -> Result<Seq<Seq<u8>>, MsgError>
    decreases dirs.len() - i,
{
    if i < 0 || i >= dirs.len() {
        Ok(Seq::empty())
    } else {
        let first = if dirs[i].object_type == crate::dir::OBJECT_STREAM {
            spec_entry_data(b, h, fat, minifat, mini, dirs[i])
        } else {
            Ok(Seq::empty())
        };
        match first {
            Err(e) => Err(e),
            Ok(d0) => match spec_datas(b, h, fat, minifat, mini, dirs, i + 1) {
                Ok(rest) => Ok(seq![d0] + rest),
                Err(e) => Err(e),
            },
        }
    }
}

/// The mini stream itself: the root entry's chain through the FAT, or empty
/// when the root records no starting sector.
pub open spec fn spec_mini_stream(
    b: Seq<u8>,
    h: HeaderModel,
    fat: Seq<u32>,
    root: crate::dir::DirEntryModel,
) -> Result<Seq<u8>, MsgError> {
    if root.starting_sector == ENDOFCHAIN {
        Ok(Seq::empty())
    } else {
        spec_fat_data(b, h, fat, root.starting_sector, root.stream_size)
    }
}

/// A fully decoded compound file: header, allocation tables, and the
/// directory with each entry's children and stream bytes filled in.
#[derive(Debug, Clone, PartialEq, Eq)]
pub struct CompoundFile {
    pub header: CompoundFileHeader,
    pub fat: Vec<u32>,
    pub minifat: Vec<u32>,
    pub dirs: Vec<crate::dir::DirectoryEntry>,
}

/// The mathematical image of a compound file.
pub struct CompoundFileModel {
    pub header: HeaderModel,
    pub fat: Seq<u32>,
    pub minifat: Seq<u32>,
    pub dirs: Seq<crate::dir::DirEntryModel>,
}

impl View for CompoundFile {
    type V = CompoundFileModel;

    open spec fn view(&self) -> CompoundFileModel {
        CompoundFileModel {
            header: self.header@,
            fat: self.fat@,
            minifat: self.minifat@,
            dirs: dirs_view(self.dirs@),
        }
    }
}

/// A parsed directory entry with its derived fields filled in.
pub open spec fn entry_with(
    d: crate::dir::DirEntryModel,
    children: Seq<u32>,
    data: Seq<u8>,
) -> crate::dir::DirEntryModel {
    crate::dir::DirEntryModel { children, data, ..d }
}

/// The whole container decode: header, FAT, MiniFAT, directory, tree,
/// mini stream, and every stream's bytes. This function is the model that
/// `CompoundFile::parse` computes.
pub open spec fn spec_parse_cfb(b: Seq<u8>) -> Result<CompoundFileModel, MsgError> {
    match spec_parse_header(b) {
        Err(e) => Err(e),
        Ok(h) => match spec_fat(b, h) {
            Err(e) => Err(e),
            Ok(fat) => match spec_minifat(b, h, fat) {
                Err(e) => Err(e),
                Ok(minifat) => match spec_directory(b, h, fat) {
                    Err(e) => Err(e),
                    Ok(dirs0) => match spec_tree(dirs0) {
                        Err(e) => Err(e),
                        Ok(cm) => {
                            if dirs0.len() == 0 {
                                Err(MsgError::NoRootEntry)
                            } else {
                                match spec_mini_stream(b, h, fat, dirs0[0]) {
                                    Err(e) => Err(e),
                                    Ok(mini) => match spec_datas(
                                        b,
                                        h,
                                        fat,
                                        minifat,
                                        mini,
                                        dirs0,
                                        0,
                                    ) {
                                        Err(e) => Err(e),
                                        Ok(datas) => Ok(
                                            CompoundFileModel {
                                                header: h,
                                                fat,
                                                minifat,
                                                dirs: Seq::new(
                                                    dirs0.len(),
                                                    |i: int| entry_with(dirs0[i], cm[i], datas[i]),
                                                ),
                                            },
                                        ),
                                    },
                                }
                            }
                        },
                    },
                },
            },
        },
    }
}

/// Whether a compound file's directory is well-formed: a root entry exists
/// and every entry's child list holds in-range ids with distinct names.
pub open spec fn cfb_wf(m: CompoundFileModel) -> bool {
    &&& m.dirs.len() >= 1
    &&& forall|p: int| 0 <= p < m.dirs.len() ==> ids_wf(m.dirs, (#[trigger] m.dirs[p]).children)
}

impl CompoundFile {
    /// Decodes a whole compound file from its byte image.
    pub fn parse(bytes: &[u8]) -> (r: Result<Self, MsgError>)
        ensures
            r matches Ok(cf) ==> spec_parse_cfb(bytes@) == Ok::<CompoundFileModel, MsgError>(cf@)
                && cfb_wf(cf@),
            r matches Err(e) ==> spec_parse_cfb(bytes@) == Err::<CompoundFileModel, MsgError>(e),
    {
        let header = match CompoundFileHeader::parse(bytes) {
            Ok(h) => h,
            Err(e) => {
                return Err(e);
            },
        };
        let fat = match build_fat(bytes, &header) {
            Ok(f) => f,
            Err(e) => {
                return Err(e);
            },
        };
        proof {
            // A FAT was assembled, so the version check inside it passed.
            assert(version_ok(header@));
        }
        let minifat = match build_minifat(bytes, &header, &fat) {
            Ok(m) => m,
            Err(e) => {
                return Err(e);
            },
        };
        let mut dirs = match build_directory(bytes, &header, &fat) {
            Ok(d) => d,
            Err(e) => {
                return Err(e);
            },
        };
        let cm = match flatten_tree(&dirs) {
            Ok(cm) => cm,
            Err(e) => {
                return Err(e);
            },
        };
        if dirs.len() == 0 {
            return Err(MsgError::NoRootEntry);
        }
        let mini = if dirs[0].starting_sector == ENDOFCHAIN {
            Vec::new()
        } else {
            match get_fat_data(bytes, &header, &fat, dirs[0].starting_sector, dirs[0].stream_size) {
                Ok(m) => m,
                Err(e) => {
                    return Err(e);
                },
            }
        };
        proof {
            assert(mini@ =~= spec_mini_stream(
                bytes@,
                header@,
                fat@,
                dirs_view(dirs@)[0],
            )->Ok_0);
        }
        let ghost dirs0 = dirs_view(dirs@);
        let mut datas: Vec<Vec<u8>> = Vec::new();
        let mut i: usize = 0;
        while i < dirs.len()
            invariant
                version_ok(header@),
                i <= dirs@.len(),
                dirs0 == dirs_view(dirs@),
                datas@.len() == i,
                spec_parse_header(bytes@) == Ok::<HeaderModel, MsgError>(header@),
                spec_fat(bytes@, header@) == Ok::<Seq<u32>, MsgError>(fat@),
                spec_minifat(bytes@, header@, fat@) == Ok::<Seq<u32>, MsgError>(minifat@),
                spec_directory(bytes@, header@, fat@) == Ok::<Seq<crate::dir::DirEntryModel>, MsgError>(dirs0),
                spec_tree(dirs0) is Ok,
                dirs0.len() > 0,
                spec_mini_stream(bytes@, header@, fat@, dirs0[0]) == Ok::<Seq<u8>, MsgError>(mini@),
                spec_datas(bytes@, header@, fat@, minifat@, mini@, dirs0, 0) == (match spec_datas(
                    bytes@,
                    header@,
                    fat@,
                    minifat@,
                    mini@,
                    dirs0,
                    i as int,
                ) {
                    Ok(rest) => Ok::<_, MsgError>(datas.deep_view() + rest),
                    Err(e) => Err::<Seq<Seq<u8>>, _>(e),
                }),
            decreases dirs@.len() - i,
        {
            proof {
                assert(dirs0[i as int] == dirs@[i as int]@);
            }
            let d = if dirs[i].object_type == crate::dir::OBJECT_STREAM {
                match get_directory_data(bytes, &header, &fat, &minifat, &mini, &dirs[i]) {
                    Ok(d) => d,
                    Err(e) => {
                        return Err(e);
                    },
                }
            } else {
                Vec::new()
            };
            let ghost before = datas.deep_view();
            let ghost dv = d@;
            datas.push(d);
            proof {
                assert(datas.deep_view() =~~= before.push(dv));
                assert(before.push(dv) =~= before + seq![dv]);
                match spec_datas(bytes@, header@, fat@, minifat@, mini@, dirs0, i + 1) {
                    Ok(rest) => {
                        assert(before + (seq![dv] + rest) =~= (before + seq![dv]) + rest);
                    },
                    Err(e) => {},
                }
            }
            i = i + 1;
        }
        proof {
            assert(datas.deep_view() + Seq::<Seq<u8>>::empty() =~= datas.deep_view());
        }
        // Fill each entry's derived fields: consume the parsed entries, the
        // child lists and the stream bytes back to front.
        let ghost cmv = cm.deep_view();
        let ghost datasv = datas.deep_view();
        proof {
            assert forall|k: int| 0 <= k < cm@.len() implies (#[trigger] cm@[k])@ == cmv[k] by {
                assert(cmv[k] == cm@[k].deep_view());
                assert(cm@[k].deep_view() =~= cm@[k]@);
            }
            assert forall|k: int| 0 <= k < datas@.len() implies (#[trigger] datas@[k])@
                == datasv[k] by {
                assert(datasv[k] == datas@[k].deep_view());
                assert(datas@[k].deep_view() =~= datas@[k]@);
            }
        }
        let n: usize = dirs.len();
        let mut cm = cm;
        let mut datas = datas;
        let mut rev: Vec<crate::dir::DirectoryEntry> = Vec::new();
        while dirs.len() > 0
            invariant
                cm@.len() == dirs@.len(),
                datas@.len() == dirs@.len(),
                n == dirs@.len() + rev@.len(),
                dirs0.len() == n && cmv.len() == n && datasv.len() == n,
                forall|k: int| 0 <= k < dirs@.len() ==> (#[trigger] dirs@[k])@ == dirs0[k],
                forall|k: int| 0 <= k < cm@.len() ==> (#[trigger] cm@[k])@ == cmv[k],
                forall|k: int| 0 <= k < datas@.len() ==> (#[trigger] datas@[k])@ == datasv[k],
                forall|k: int|
                    0 <= k < rev@.len() ==> (#[trigger] rev@[k])@ == entry_with(
                        dirs0[n - 1 - k],
                        cmv[n - 1 - k],
                        datasv[n - 1 - k],
                    ),
            decreases dirs@.len(),
        {
            let ghost m = dirs@.len();
            let d = match dirs.pop() {
                Some(d) => d,
                None => {
                    proof {
                        assert(false);
                    }
                    return Err(MsgError::NoRootEntry);
                },
            };
            let c = match cm.pop() {
                Some(c) => c,
                None => {
                    proof {
                        assert(false);
                    }
                    return Err(MsgError::NoRootEntry);
                },
            };
            let dt = match datas.pop() {
                Some(dt) => dt,
                None => {
                    proof {
                        assert(false);
                    }
                    return Err(MsgError::NoRootEntry);
                },
            };
            let filled = crate::dir::DirectoryEntry { children: c, data: dt, ..d };
            rev.push(filled);
            proof {
                assert(filled@ == entry_with(dirs0[m - 1], cmv[m - 1], datasv[m - 1]));
            }
        }
        let mut out: Vec<crate::dir::DirectoryEntry> = Vec::new();
        while rev.len() > 0
            invariant
                out@.len() + rev@.len() == n,
                dirs0.len() == n && cmv.len() == n && datasv.len() == n,
                forall|k: int|
                    0 <= k < rev@.len() ==> (#[trigger] rev@[k])@ == entry_with(
                        dirs0[n - 1 - k],
                        cmv[n - 1 - k],
                        datasv[n - 1 - k],
                    ),
                forall|k: int|
                    0 <= k < out@.len() ==> (#[trigger] out@[k])@ == entry_with(
                        dirs0[k],
                        cmv[k],
                        datasv[k],
                    ),
            decreases rev@.len(),
        {
            let d = match rev.pop() {
                Some(d) => d,
                None => {
                    proof {
                        assert(false);
                    }
                    return Err(MsgError::NoRootEntry);
                },
            };
            out.push(d);
        }
        let cf = CompoundFile { header, fat, minifat, dirs: out };
        proof {
            assert(cf@.dirs =~= Seq::new(
                dirs0.len(),
                |i: int| entry_with(dirs0[i], cmv[i], datasv[i]),
            ));
            lemma_tree_wf(dirs0);
            assert forall|p: int| 0 <= p < cf@.dirs.len() implies ids_wf(
                cf@.dirs,
                (#[trigger] cf@.dirs[p]).children,
            ) by {
                assert(cf@.dirs[p].children == cmv[p]);
                assert(ids_wf(dirs0, cmv[p]));
                assert forall|x: int, y: int|
                    0 <= x < y < cmv[p].len() implies cf@.dirs[cmv[p][x] as int].name_raw != cf@
                    .dirs[cmv[p][y] as int].name_raw by {
                    assert(dirs0[cmv[p][x] as int].name_raw != dirs0[cmv[p][y] as int].name_raw);
                }
            }
            assert(cfb_wf(cf@));
        }
        Ok(cf)
    }
}

} // verus!
