//! The MSG layer: property streams and the assembled message file with its
//! recipient and attachment storages.

use vstd::prelude::*;
use crate::MsgError;
use crate::bytes::{le32, read_le32};
use crate::cfb::{CompoundFile, CompoundFileModel, dirs_view};
use crate::dir::DirEntryModel;
use crate::oxcdata::{PropertyEntry, PropertyEntryModel, spec_property_entry, spec_find_child,
    find_child};

use crate::oxcmsg::PropertyId;
use crate::strings::{ascii_to_utf16, prop_stream_name_ascii, recip_name_ascii, attach_name_ascii};

verus! {

/// Size in bytes of the property stream header of a top-level message.
pub const TOPLEVEL_HEADER_SIZE: usize = 32;

/// Size in bytes of the property stream header of a recipient or
/// attachment storage.
pub const RECIP_OR_ATTACH_HEADER_SIZE: usize = 8;

/// Size in bytes of the property stream header of an embedded message.
pub const EMBEDDED_MSG_HEADER_SIZE: usize = 24;

/// The counters at the head of a property stream.
#[derive(Debug, Clone, PartialEq, Eq)]
pub struct PropertyStreamHeader {
    pub reserved: Vec<u8>,
    pub next_recipient_id: u32,
    pub next_attachment_id: u32,
    pub recipient_count: u32,
    pub attachment_count: u32,
}

/// The mathematical image of a property stream header.
pub struct PropertyStreamHeaderModel {
    pub reserved: Seq<u8>,
    pub next_recipient_id: u32,
    pub next_attachment_id: u32,
    pub recipient_count: u32,
    pub attachment_count: u32,
}

impl View for PropertyStreamHeader {
    type V = PropertyStreamHeaderModel;

    open spec fn view(&self) -> PropertyStreamHeaderModel {
        PropertyStreamHeaderModel {
            reserved: self.reserved@,
            next_recipient_id: self.next_recipient_id,
            next_attachment_id: self.next_attachment_id,
            recipient_count: self.recipient_count,
            attachment_count: self.attachment_count,
        }
    }
}

/// The all-zero header used where the stream carries none.
pub open spec fn spec_zero_header() -> PropertyStreamHeaderModel {
    PropertyStreamHeaderModel {
        reserved: Seq::new(8, |i: int| 0u8),
        next_recipient_id: 0,
        next_attachment_id: 0,
        recipient_count: 0,
        attachment_count: 0,
    }
}

/// The header counters stored in the first 24 bytes of `b`.
pub open spec fn spec_stream_header(b: Seq<u8>) -> Result<PropertyStreamHeaderModel, MsgError> {
    if b.len() < 24 {
        Err(MsgError::TruncatedInput)
    } else {
        Ok(
            PropertyStreamHeaderModel {
                reserved: b.subrange(0, 8),
                next_recipient_id: le32(b, 8),
                next_attachment_id: le32(b, 12),
                recipient_count: le32(b, 16),
                attachment_count: le32(b, 20),
            },
        )
    }
}

impl PropertyStreamHeader {
    /// Decodes the counters from the first 24 bytes of `input`.
    pub fn parse(input: &[u8]) -> (r: Result<Self, MsgError>)
        ensures
            r matches Ok(h) ==> spec_stream_header(input@) == Ok::<
                PropertyStreamHeaderModel,
                MsgError,
            >(h@),
            r matches Err(e) ==> spec_stream_header(input@) == Err::<
                PropertyStreamHeaderModel,
                MsgError,
            >(e),
    {
        if input.len() < 24 {
            return Err(MsgError::TruncatedInput);
        }
        let reserved = crate::bytes::copy_range(input, 0, 8);
        let h = PropertyStreamHeader {
            reserved,
            next_recipient_id: read_le32(input, 8),
            next_attachment_id: read_le32(input, 12),
            recipient_count: read_le32(input, 16),
            attachment_count: read_le32(input, 20),
        };
        proof {
            assert(h@.reserved =~= input@.subrange(0, 8));
        }
        Ok(h)
    }

    /// A header with every counter zero.
    pub fn zeroed() -> (r: Self)
        ensures
            r@ == spec_zero_header(),
    {
        let mut reserved: Vec<u8> = Vec::new();
        let mut i: usize = 0;
        while i < 8
            invariant
                i <= 8,
                reserved@ == Seq::new(i as nat, |k: int| 0u8),
            decreases 8 - i,
        {
            reserved.push(0);
            assert(reserved@ =~= Seq::new((i + 1) as nat, |k: int| 0u8));
            i = i + 1;
        }
        PropertyStreamHeader {
            reserved,
            next_recipient_id: 0,
            next_attachment_id: 0,
            recipient_count: 0,
            attachment_count: 0,
        }
    }
}

/// The first position in `s` holding the property id `id`.
pub open spec fn spec_prop_index(s: Seq<PropertyEntryModel>, id: PropertyId, i: int) -> Option<int>
    decreases s.len() - i,
{
    if i < 0 || i >= s.len() {
        None
    } else if s[i].tag.id == id {
        Some(i)
    } else {
        spec_prop_index(s, id, i + 1)
    }
}

/// The view of an optional borrowed entry.
pub open spec fn opt_entry_view(o: Option<&PropertyEntry>) -> Option<PropertyEntryModel> {
    match o {
        Some(p) => Some(p@),
        None => None,
    }
}

/// The entry a property stream maps `id` to, if any.
pub open spec fn spec_lookup(ps: PropertyStreamModel, id: PropertyId) -> Option<
    PropertyEntryModel,
> {
    match spec_prop_index(ps.properties, id, 0) {
        Some(i) => Some(ps.properties[i]),
        None => None,
    }
}

/// `acc` with `p` inserted under its id: the last write to an id wins.
pub open spec fn spec_insert_prop(
    acc: Seq<PropertyEntryModel>,
    p: PropertyEntryModel,
) -> Seq<PropertyEntryModel> {
    match spec_prop_index(acc, p.tag.id, 0) {
        Some(i) => acc.update(i, p),
        None => acc.push(p),
    }
}

/// The property table of `b` folded into an id-keyed collection: 16-byte
/// entries decoded in order from position `16 * k`, each inserted with
/// last-write-wins, starting from `acc`.
pub open spec fn spec_table(
    b: Seq<u8>,
    dirs: Seq<DirEntryModel>,
    parent: int,
    k: int,
    acc: Seq<PropertyEntryModel>,
) -> Result<Seq<PropertyEntryModel>, MsgError>
    decreases b.len() / 16 - k,
{
    if k < 0 || k >= b.len() / 16 {
        Ok(acc)
    } else {
        match spec_property_entry(b.subrange(16 * k, 16 * k + 16), dirs, parent) {
            Err(e) => Err(e),
            Ok(p) => spec_table(b, dirs, parent, k + 1, spec_insert_prop(acc, p)),
        }
    }
}

/// A decoded property stream: its header and its id-keyed properties.
#[derive(Debug, Clone, PartialEq)]
pub struct PropertyStream {
    pub header: PropertyStreamHeader,
    pub properties: Vec<PropertyEntry>,
}

/// The mathematical image of a property stream.
pub struct PropertyStreamModel {
    pub header: PropertyStreamHeaderModel,
    pub properties: Seq<PropertyEntryModel>,
}

impl View for PropertyStream {
    type V = PropertyStreamModel;

    open spec fn view(&self) -> PropertyStreamModel {
        PropertyStreamModel { header: self.header@, properties: self.properties.deep_view() }
    }
}

impl DeepView for PropertyStream {
    type V = PropertyStreamModel;

    open spec fn deep_view(&self) -> PropertyStreamModel {
        self.view()
    }
}

/// The whole property stream `b` of a storage: a header of
/// `header_size` bytes (decoded when at least 24 bytes, else zeroed),
/// then 16-byte property entries to the end.
pub open spec fn spec_property_stream(
    b: Seq<u8>,
    header_size: int,
    dirs: Seq<DirEntryModel>,
    parent: int,
) -> Result<PropertyStreamModel, MsgError> {
    if b.len() < header_size || header_size < 0 {
        Err(MsgError::TruncatedInput)
    } else {
        let hr = if header_size >= 24 {
            spec_stream_header(b.take(header_size))
        } else {
            Ok(spec_zero_header())
        };
        match hr {
            Err(e) => Err(e),
            Ok(header) => {
                let rest = b.skip(header_size);
                if rest.len() % 16 != 0 {
                    Err(MsgError::PropertyTableAlignment)
                } else {
                    match spec_table(rest, dirs, parent, 0, Seq::empty()) {
                        Err(e) => Err(e),
                        Ok(props) => Ok(PropertyStreamModel { header, properties: props }),
                    }
                }
            },
        }
    }
}

/// Inserts `p` into `props` under its id: a later entry replaces an
/// earlier one with the same id.
fn insert_prop(props: &mut Vec<PropertyEntry>, p: PropertyEntry)
    ensures
        final(props).deep_view() == spec_insert_prop(old(props).deep_view(), p@),
{
    let ghost before = old(props).deep_view();
    let mut at: Option<usize> = None;
    let mut j: usize = 0;
    while j < props.len() && at.is_none()
        invariant
            before == props.deep_view(),
            props@ == old(props)@,
            j <= props@.len(),
            at matches Some(i) ==> (i as int) < props@.len() && spec_prop_index(
                before,
                p@.tag.id,
                0,
            ) == Some(i as int),
            at is None ==> spec_prop_index(before, p@.tag.id, 0) == spec_prop_index(
                before,
                p@.tag.id,
                j as int,
            ),
        decreases props@.len() - j, (if at is None { 1int } else { 0int }),
    {
        proof {
            assert(props.deep_view()[j as int] == props@[j as int]@);
        }
        if props[j].tag.id == p.tag.id {
            at = Some(j);
        } else {
            j = j + 1;
        }
    }
    match at {
        Some(i) => {
            props[i] = p;
            proof {
                assert(props.deep_view() =~~= before.update(i as int, p@));
            }
        },
        None => {
            props.push(p);
            proof {
                assert(props.deep_view() =~~= before.push(p@));
            }
        },
    }
}

impl PropertyStream {
    /// Decodes a `__properties_version1.0` stream held by the storage
    /// `dirs[parent]`.
    #[verifier::rlimit(100)]
    pub fn parse(
        input: &[u8],
        header_size: usize,
        dirs: &Vec<crate::dir::DirectoryEntry>,
        parent: usize,
    ) -> (r: Result<Self, MsgError>)
        requires
            (parent as int) < dirs@.len(),
        ensures
            r matches Ok(v) ==> spec_property_stream(
                input@,
                header_size as int,
                dirs_view(dirs@),
                parent as int,
            ) == Ok::<PropertyStreamModel, MsgError>(v@),
            r matches Err(e) ==> spec_property_stream(
                input@,
                header_size as int,
                dirs_view(dirs@),
                parent as int,
            ) == Err::<PropertyStreamModel, MsgError>(e),
    {
        let n: usize = input.len();
        if n < header_size {
            return Err(MsgError::TruncatedInput);
        }
        let header = if header_size >= 24 {
            let hb = vstd::slice::slice_subrange(input, 0, header_size);
            proof {
                assert(hb@ =~= input@.take(header_size as int));
            }
            match PropertyStreamHeader::parse(hb) {
                Ok(h) => h,
                Err(e) => {
                    return Err(e);
                },
            }
        } else {
            PropertyStreamHeader::zeroed()
        };
        let rest = vstd::slice::slice_subrange(input, header_size, n);
        proof {
            assert(rest@ =~= input@.skip(header_size as int));
        }
        if rest.len() % 16 != 0 {
            return Err(MsgError::PropertyTableAlignment);
        }
        let rn: usize = rest.len();
        let count: usize = rn / 16;
        let mut props: Vec<PropertyEntry> = Vec::new();
        proof {
            assert(props.deep_view() =~= Seq::<PropertyEntryModel>::empty());
        }
        let mut k: usize = 0;
        while k < count
            invariant
                (parent as int) < dirs@.len(),
                k <= count,
                input@.len() >= header_size,
                rest@ == input@.skip(header_size as int),
                rest@.len() % 16 == 0,
                rn == rest@.len(),
                16 * count <= rn,
                count == rest@.len() / 16,
                header_size >= 24 ==> spec_stream_header(input@.take(header_size as int))
                    == Ok::<PropertyStreamHeaderModel, MsgError>(header@),
                header_size < 24 ==> header@ == spec_zero_header(),
                spec_table(rest@, dirs_view(dirs@), parent as int, 0, Seq::empty()) == spec_table(
                    rest@,
                    dirs_view(dirs@),
                    parent as int,
                    k as int,
                    props.deep_view(),
                ),
            decreases count - k,
        {
            let rec = vstd::slice::slice_subrange(rest, 16 * k, 16 * k + 16);
            proof {
                assert(rec@ =~= rest@.subrange(16 * (k as int), 16 * (k as int) + 16));
            }
            let p = match PropertyEntry::parse(rec, dirs, parent) {
                Ok(p) => p,
                Err(e) => {
                    return Err(e);
                },
            };
            insert_prop(&mut props, p);
            k = k + 1;
        }
        Ok(PropertyStream { header, properties: props })
    }

    /// The entry stored under `id`, if any.
    pub fn get(&self, id: PropertyId) -> (r: Option<&PropertyEntry>)
        ensures
            opt_entry_view(r) == spec_lookup(self@, id),
    {
        let mut j: usize = 0;
        while j < self.properties.len()
            invariant
                j <= self.properties@.len(),
                spec_prop_index(self@.properties, id, 0) == spec_prop_index(
                    self@.properties,
                    id,
                    j as int,
                ),
            decreases self.properties@.len() - j,
        {
            proof {
                assert(self@.properties[j as int] == self.properties@[j as int]@);
            }
            if self.properties[j].tag.id == id {
                return Some(&self.properties[j]);
            }
            j = j + 1;
        }
        None
    }
}

/// The root storage's own property stream, decoded with the top-level
/// 32-byte header.
pub open spec fn spec_root_props(m: CompoundFileModel) -> Result<PropertyStreamModel, MsgError>
    recommends
        m.dirs.len() >= 1,
{
    let name = ascii_to_utf16(prop_stream_name_ascii());
    match spec_find_child(m.dirs, m.dirs[0], name, 0) {
        None => Err(MsgError::NoPropertyStream),
        Some(psi) => spec_property_stream(m.dirs[psi].data, 32, m.dirs, 0),
    }
}

/// The property streams of the recipient (or attachment) storages
/// `#00000000`, `#00000001`, …: enumeration is dense and stops at the
/// first index whose storage or property stream is missing.
pub open spec fn spec_fetch(m: CompoundFileModel, attachments: bool, i: u32) -> Result<
    Option<PropertyStreamModel>,
    MsgError,
>
    recommends
        m.dirs.len() >= 1,
{
    let nm = ascii_to_utf16(
        if attachments {
            attach_name_ascii(i)
        } else {
            recip_name_ascii(i)
        },
    );
    match spec_find_child(m.dirs, m.dirs[0], nm, 0) {
        None => Ok(None),
        Some(ci) => {
            let pn = ascii_to_utf16(prop_stream_name_ascii());
            match spec_find_child(m.dirs, m.dirs[ci], pn, 0) {
                None => Ok(None),
                Some(psi) => match spec_property_stream(m.dirs[psi].data, 8, m.dirs, ci) {
                    Err(e) => Err(e),
                    Ok(ps) => Ok(Some(ps)),
                },
            }
        },
    }
}

pub open spec fn spec_collect(
    m: CompoundFileModel,
    attachments: bool,
    i: u32,
    fuel: nat,
) -> Result<Seq<PropertyStreamModel>, MsgError>
    decreases fuel,
{
    if fuel == 0 {
        Ok(Seq::empty())
    } else {
        match spec_fetch(m, attachments, i) {
            Err(e) => Err(e),
            Ok(None) => Ok(Seq::empty()),
            Ok(Some(ps)) => {
                if i == 0xFFFF_FFFFu32 {
                    Ok(seq![ps])
                } else {
                    match spec_collect(m, attachments, (i + 1) as u32, (fuel - 1) as nat) {
                        Ok(rest) => Ok(seq![ps] + rest),
                        Err(e) => Err(e),
                    }
                }
            },
        }
    }
}

/// Fetches the property stream of the recipient or attachment storage
/// numbered `i`, if that storage and its stream exist.
#[verifier::rlimit(50)]
fn fetch_stream(cfb: &CompoundFile, attachments: bool, i: u32) -> (r: Result<
    Option<PropertyStream>,
    MsgError,
>)
    requires
        crate::cfb::cfb_wf(cfb@),
    ensures
        r matches Ok(o) ==> (match o {
            Some(ps) => spec_fetch(cfb@, attachments, i) == Ok::<_, MsgError>(Some(ps@)),
            None => spec_fetch(cfb@, attachments, i) == Ok::<Option<PropertyStreamModel>, MsgError>(
                None,
            ),
        }),
        r matches Err(e) ==> spec_fetch(cfb@, attachments, i) == Err::<
            Option<PropertyStreamModel>,
            MsgError,
        >(e),
{
    let nm = if attachments {
        crate::strings::attach_name_utf16(i)
    } else {
        crate::strings::recip_name_utf16(i)
    };
    let ci = match find_child(&cfb.dirs, 0, &nm) {
        Some(ci) => ci,
        None => {
            return Ok(None);
        },
    };
    let pn = crate::strings::prop_stream_name_utf16();
    let psi = match find_child(&cfb.dirs, ci, &pn) {
        Some(psi) => psi,
        None => {
            return Ok(None);
        },
    };
    match PropertyStream::parse(
        cfb.dirs[psi].data.as_slice(),
        RECIP_OR_ATTACH_HEADER_SIZE,
        &cfb.dirs,
        ci,
    ) {
        Ok(ps) => Ok(Some(ps)),
        Err(e) => Err(e),
    }
}

/// A decoded message file: the container, the message's own properties,
/// and the property streams of its recipients and attachments in index
/// order.
#[derive(Debug, Clone, PartialEq)]
pub struct MsgFile {
    pub cfb: CompoundFile,
    pub properties: PropertyStream,
    pub recipients: Vec<PropertyStream>,
    pub attachments: Vec<PropertyStream>,
}

/// The mathematical image of a message file.
pub struct MsgFileModel {
    pub cfb: CompoundFileModel,
    pub properties: PropertyStreamModel,
    pub recipients: Seq<PropertyStreamModel>,
    pub attachments: Seq<PropertyStreamModel>,
}

impl View for MsgFile {
    type V = MsgFileModel;

    open spec fn view(&self) -> MsgFileModel {
        MsgFileModel {
            cfb: self.cfb@,
            properties: self.properties@,
            recipients: self.recipients.deep_view(),
            attachments: self.attachments.deep_view(),
        }
    }
}

/// The whole message assembly over a decoded container.
pub open spec fn spec_msg_file(m: CompoundFileModel) -> Result<MsgFileModel, MsgError>
    recommends
        m.dirs.len() >= 1,
{
    match spec_root_props(m) {
        Err(e) => Err(e),
        Ok(props) => match spec_collect(m, false, 0, m.dirs[0].children.len()) {
            Err(e) => Err(e),
            Ok(recips) => match spec_collect(m, true, 0, m.dirs[0].children.len()) {
                Err(e) => Err(e),
                Ok(atts) => Ok(
                    MsgFileModel {
                        cfb: m,
                        properties: props,
                        recipients: recips,
                        attachments: atts,
                    },
                ),
            },
        },
    }
}

/// Collects the dense run of recipient or attachment property streams.
#[verifier::rlimit(100)]
fn collect_streams(cfb: &CompoundFile, attachments: bool) -> (r: Result<
    Vec<PropertyStream>,
    MsgError,
>)
    requires
        crate::cfb::cfb_wf(cfb@),
    ensures
        r matches Ok(v) ==> spec_collect(cfb@, attachments, 0, cfb@.dirs[0].children.len())
            == Ok::<Seq<PropertyStreamModel>, MsgError>(v.deep_view()),
        r matches Err(e) ==> spec_collect(cfb@, attachments, 0, cfb@.dirs[0].children.len())
            == Err::<Seq<PropertyStreamModel>, MsgError>(e),
{
    let fuel0: usize = cfb.dirs[0].children.len();
    let mut out: Vec<PropertyStream> = Vec::new();
    let mut i: u32 = 0;
    let mut fuel: usize = fuel0;
    proof {
        assert(out.deep_view() =~= Seq::<PropertyStreamModel>::empty());
        match spec_collect(cfb@, attachments, 0, fuel0 as nat) {
            Ok(rest) => {
                assert(out.deep_view() + rest =~= rest);
            },
            Err(e) => {},
        }
    }
    loop
        invariant
            crate::cfb::cfb_wf(cfb@),
            fuel0 == cfb@.dirs[0].children.len(),
            spec_collect(cfb@, attachments, 0, fuel0 as nat) == (match spec_collect(
                cfb@,
                attachments,
                i,
                fuel as nat,
            ) {
                Ok(rest) => Ok::<_, MsgError>(out.deep_view() + rest),
                Err(e) => Err::<Seq<PropertyStreamModel>, _>(e),
            }),
        decreases fuel,
    {
        if fuel == 0 {
            proof {
                assert(out.deep_view() + Seq::<PropertyStreamModel>::empty() =~= out.deep_view());
            }
            return Ok(out);
        }
        let ps = match fetch_stream(cfb, attachments, i) {
            Ok(Some(ps)) => ps,
            Ok(None) => {
                proof {
                    assert(out.deep_view() + Seq::<PropertyStreamModel>::empty() =~= out.deep_view(
                    ));
                }
                return Ok(out);
            },
            Err(e) => {
                return Err(e);
            },
        };
        let ghost before = out.deep_view();
        let ghost psv = ps@;
        out.push(ps);
        proof {
            assert(out.deep_view() =~~= before.push(psv));
            assert(before.push(psv) =~= before + seq![psv]);
            if i != 0xFFFF_FFFFu32 {
                match spec_collect(cfb@, attachments, (i + 1) as u32, (fuel - 1) as nat) {
                    Ok(rest) => {
                        assert(before + (seq![psv] + rest) =~= (before + seq![psv]) + rest);
                    },
                    Err(e) => {},
                }
            } else {
                assert(before + seq![psv] =~= (before + seq![psv]) + Seq::<
                    PropertyStreamModel,
                >::empty());
            }
        }
        if i == 0xFFFF_FFFFu32 {
            // The name counter is exhausted: the enumeration ends here.
            proof {
                assert(out.deep_view() + Seq::<PropertyStreamModel>::empty() =~= out.deep_view());
            }
            return Ok(out);
        }
        i = i + 1;
        fuel = fuel - 1;
    }
}

impl MsgFile {
    /// Assembles the message view of a decoded compound file: the root's
    /// property stream plus the dense runs of recipient and attachment
    /// storages.
    pub fn from_cfb(cfb: CompoundFile) -> (r: Result<Self, MsgError>)
        requires
            crate::cfb::cfb_wf(cfb@),
        ensures
            r matches Ok(mf) ==> spec_msg_file(cfb@) == Ok::<MsgFileModel, MsgError>(mf@),
            r matches Err(e) ==> spec_msg_file(cfb@) == Err::<MsgFileModel, MsgError>(e),
    {
        let pn = crate::strings::prop_stream_name_utf16();
        let psi = match find_child(&cfb.dirs, 0, &pn) {
            Some(psi) => psi,
            None => {
                return Err(MsgError::NoPropertyStream);
            },
        };
        let properties = match PropertyStream::parse(
            cfb.dirs[psi].data.as_slice(),
            TOPLEVEL_HEADER_SIZE,
            &cfb.dirs,
            0,
        ) {
            Ok(ps) => ps,
            Err(e) => {
                return Err(e);
            },
        };
        let recipients = match collect_streams(&cfb, false) {
            Ok(v) => v,
            Err(e) => {
                return Err(e);
            },
        };
        let attachments = match collect_streams(&cfb, true) {
            Ok(v) => v,
            Err(e) => {
                return Err(e);
            },
        };
        Ok(MsgFile { cfb, properties, recipients, attachments })
    }

    /// Decodes a whole message file from its byte image.
    pub fn parse(bytes: &[u8]) -> (r: Result<Self, MsgError>)
        ensures
            r matches Ok(mf) ==> spec_parse_msg(bytes@) == Ok::<MsgFileModel, MsgError>(mf@),
            r matches Err(e) ==> spec_parse_msg(bytes@) == Err::<MsgFileModel, MsgError>(e),
    {
        let cfb = match CompoundFile::parse(bytes) {
            Ok(cfb) => cfb,
            Err(e) => {
                return Err(e);
            },
        };
        MsgFile::from_cfb(cfb)
    }
}

/// The whole decode, container and message layers composed: the model that
/// `MsgFile::parse` computes from a byte image.
pub open spec fn spec_parse_msg(b: Seq<u8>) -> Result<MsgFileModel, MsgError> {
    match crate::cfb::spec_parse_cfb(b) {
        Err(e) => Err(e),
        Ok(m) => spec_msg_file(m),
    }
}

} // verus!