//! The library's general laws, stated and proved over the same models its
//! parsing contracts use.

use vstd::prelude::*;
use vstd::seq_lib::group_to_multiset_ensures;
use crate::MsgError;
use crate::fat::{chain_from, lemma_chain_distinct};
use crate::cfb::{CompoundFileModel, spec_parse_cfb, spec_parse_header, spec_fat, spec_minifat,
    spec_directory, spec_tree, spec_mini_stream, spec_datas, spec_entry_data, spec_concat_sectors,
    spec_fat_data, spec_mini_data, cfb_wf, ids_wf, lemma_tree_wf, ssz};
use crate::dir::{DirEntryModel, OBJECT_STREAM};
use crate::oxcdata::PropertyEntryModel;
use crate::oxcmsg::PropertyId;
use crate::oxmsg::{spec_insert_prop, spec_prop_index, spec_parse_msg, MsgFileModel};

verus! {

/// Whether a sequence of sector numbers holds no repeats.
pub open spec fn no_repeats(c: Seq<u32>) -> bool {
    forall|i: int, j: int| 0 <= i < j < c.len() ==> c[i] != c[j]
}

/// In a run of successfully materialized streams, each single stream's
/// materialization succeeded.
proof fn lemma_datas_ok(
    b: Seq<u8>,
    h: crate::cfb::HeaderModel,
    fat: Seq<u32>,
    minifat: Seq<u32>,
    mini: Seq<u8>,
    dirs: Seq<DirEntryModel>,
    j: int,
    i: int,
)
    requires
        spec_datas(b, h, fat, minifat, mini, dirs, j) is Ok,
        0 <= j <= i < dirs.len(),
    ensures
        dirs[i].object_type == OBJECT_STREAM ==> spec_entry_data(
            b,
            h,
            fat,
            minifat,
            mini,
            dirs[i],
        ) is Ok,
    decreases i - j,
{
    if j < i {
        lemma_datas_ok(b, h, fat, minifat, mini, dirs, j + 1, i);
    }
}

/// Chain soundness: in a successfully decoded container, every stream
/// entry's sector chain terminates at `ENDOFCHAIN` without revisiting a
/// sector; for a stream in the FAT domain, the concatenated sector bytes
/// cover the recorded size to within one sector.
pub proof fn lemma_chain_soundness(b: Seq<u8>, m: CompoundFileModel, i: int)
    requires
        spec_parse_cfb(b) == Ok::<CompoundFileModel, MsgError>(m),
        0 <= i < m.dirs.len(),
        m.dirs[i].object_type == OBJECT_STREAM,
    ensures
        (m.dirs[i].stream_size as int) < (m.header.mini_stream_cutoff_size as int) ==> {
            &&& chain_from(
                m.minifat,
                m.dirs[i].starting_sector,
                (m.minifat.len() + 1) as nat,
            ) is Some
            &&& no_repeats(
                chain_from(
                    m.minifat,
                    m.dirs[i].starting_sector,
                    (m.minifat.len() + 1) as nat,
                )->Some_0,
            )
        },
        (m.dirs[i].stream_size as int) >= (m.header.mini_stream_cutoff_size as int) ==> {
            &&& chain_from(m.fat, m.dirs[i].starting_sector, (m.fat.len() + 1) as nat) is Some
            &&& no_repeats(
                chain_from(m.fat, m.dirs[i].starting_sector, (m.fat.len() + 1) as nat)->Some_0,
            )
            &&& spec_concat_sectors(
                b,
                m.header,
                chain_from(m.fat, m.dirs[i].starting_sector, (m.fat.len() + 1) as nat)->Some_0,
                0,
            ) matches Ok(data) && m.dirs[i].stream_size <= data.len() < m.dirs[i].stream_size
                + ssz(m.header)
        },
{
    let h = spec_parse_header(b)->Ok_0;
    let fat = spec_fat(b, h)->Ok_0;
    let minifat = spec_minifat(b, h, fat)->Ok_0;
    let dirs0 = spec_directory(b, h, fat)->Ok_0;
    let mini = spec_mini_stream(b, h, fat, dirs0[0])->Ok_0;
    assert(m.fat == fat && m.minifat == minifat && m.header == h);
    assert(m.dirs[i].object_type == dirs0[i].object_type);
    assert(m.dirs[i].starting_sector == dirs0[i].starting_sector);
    assert(m.dirs[i].stream_size == dirs0[i].stream_size);
    lemma_datas_ok(b, h, fat, minifat, mini, dirs0, 0, i);
    let e = dirs0[i];
    if (e.stream_size as int) < (h.mini_stream_cutoff_size as int) {
        // The stream lives in the MiniFAT domain.
        assert(spec_mini_data(mini, minifat, e.starting_sector, e.stream_size) is Ok);
        let c = chain_from(minifat, e.starting_sector, (minifat.len() + 1) as nat)->Some_0;
        lemma_chain_distinct(minifat, e.starting_sector, (minifat.len() + 1) as nat, c);
    } else {
        assert(spec_fat_data(b, h, fat, e.starting_sector, e.stream_size) is Ok);
        let c = chain_from(fat, e.starting_sector, (fat.len() + 1) as nat)->Some_0;
        lemma_chain_distinct(fat, e.starting_sector, (fat.len() + 1) as nat, c);
    }
}

/// Name uniqueness: in a successfully decoded container, every storage's
/// child list holds in-range ids whose names are pairwise distinct.
pub proof fn lemma_name_uniqueness(b: Seq<u8>, m: CompoundFileModel)
    requires
        spec_parse_cfb(b) == Ok::<CompoundFileModel, MsgError>(m),
    ensures
        cfb_wf(m),
        forall|p: int, x: int, y: int|
            0 <= p < m.dirs.len() && 0 <= x < y < (#[trigger] m.dirs[p]).children.len()
                ==> m.dirs[(#[trigger] m.dirs[p].children[x]) as int].name_raw != m.dirs[(
            #[trigger] m.dirs[p].children[y]) as int].name_raw,
{
    let h = spec_parse_header(b)->Ok_0;
    let fat = spec_fat(b, h)->Ok_0;
    let dirs0 = spec_directory(b, h, fat)->Ok_0;
    let cm = spec_tree(dirs0)->Ok_0;
    lemma_tree_wf(dirs0);
    assert forall|p: int| 0 <= p < m.dirs.len() implies ids_wf(
        m.dirs,
        (#[trigger] m.dirs[p]).children,
    ) by {
        assert(m.dirs[p].children == cm[p]);
        assert(ids_wf(dirs0, cm[p]));
        assert forall|x: int, y: int| 0 <= x < y < cm[p].len() implies m.dirs[cm[p][x] as int].name_raw
            != m.dirs[cm[p][y] as int].name_raw by {
            assert(dirs0[cm[p][x] as int].name_raw != dirs0[cm[p][y] as int].name_raw);
            assert(m.dirs[cm[p][x] as int].name_raw == dirs0[cm[p][x] as int].name_raw);
            assert(m.dirs[cm[p][y] as int].name_raw == dirs0[cm[p][y] as int].name_raw);
        }
    }
    assert forall|p: int, x: int, y: int|
        0 <= p < m.dirs.len() && 0 <= x < y < (#[trigger] m.dirs[p]).children.len() implies m.dirs[(
    #[trigger] m.dirs[p].children[x]) as int].name_raw != m.dirs[(#[trigger] m.dirs[p].children[y]) as int].name_raw by {
        assert(ids_wf(m.dirs, m.dirs[p].children));
    }
}

/// The id-keyed table built by inserting `entries[k..]` into `acc` with
/// last-write-wins.
pub open spec fn fold_table(
    entries: Seq<PropertyEntryModel>,
    k: int,
    acc: Seq<PropertyEntryModel>,
) -> Seq<PropertyEntryModel>
    decreases entries.len() - k,
{
    if k < 0 || k >= entries.len() {
        acc
    } else {
        fold_table(entries, k + 1, spec_insert_prop(acc, entries[k]))
    }
}

/// What an id resolves to in the table built from `entries`.
pub open spec fn table_lookup(entries: Seq<PropertyEntryModel>, id: PropertyId) -> Option<
    PropertyEntryModel,
> {
    let folded = fold_table(entries, 0, Seq::empty());
    match spec_prop_index(folded, id, 0) {
        Some(i) => Some(folded[i]),
        None => None,
    }
}

/// Whether the entries carry pairwise distinct property ids.
pub open spec fn distinct_ids(s: Seq<PropertyEntryModel>) -> bool {
    forall|i: int, j: int| 0 <= i < j < s.len() ==> s[i].tag.id != s[j].tag.id
}

/// An id absent from `s[i..]` is not found there.
proof fn lemma_index_none(s: Seq<PropertyEntryModel>, id: PropertyId, i: int)
    requires
        forall|j: int| i <= j < s.len() ==> s[j].tag.id != id,
        0 <= i <= s.len(),
    ensures
        spec_prop_index(s, id, i) is None,
    decreases s.len() - i,
{
    if i < s.len() {
        lemma_index_none(s, id, i + 1);
    }
}

/// A found index lies in range, carries the id, and is the first match.
proof fn lemma_index_found(s: Seq<PropertyEntryModel>, id: PropertyId, i: int, f: int)
    requires
        0 <= i,
        spec_prop_index(s, id, i) == Some(f),
    ensures
        i <= f < s.len(),
        s[f].tag.id == id,
    decreases s.len() - i,
{
    if i < s.len() && s[i].tag.id != id {
        lemma_index_found(s, id, i + 1, f);
    }
}

/// When an id occurs in `s[i..]`, it is found.
proof fn lemma_index_some(s: Seq<PropertyEntryModel>, id: PropertyId, i: int, w: int)
    requires
        0 <= i <= w < s.len(),
        s[w].tag.id == id,
    ensures
        spec_prop_index(s, id, i) is Some,
    decreases s.len() - i,
{
    if s[i].tag.id != id {
        lemma_index_some(s, id, i + 1, w);
    }
}

/// With pairwise distinct ids no insertion replaces anything, so the fold
/// appends the entries in order.
proof fn lemma_fold_distinct(
    entries: Seq<PropertyEntryModel>,
    k: int,
    acc: Seq<PropertyEntryModel>,
)
    requires
        0 <= k <= entries.len(),
        distinct_ids(entries),
        forall|a: int, e: int|
            0 <= a < acc.len() && k <= e < entries.len() ==> (#[trigger] acc[a]).tag.id != (
            #[trigger] entries[e]).tag.id,
    ensures
        fold_table(entries, k, acc) == acc + entries.skip(k),
    decreases entries.len() - k,
{
    if k >= entries.len() {
        assert(acc + entries.skip(k) =~= acc);
    } else {
        let e = entries[k];
        assert(forall|a: int| 0 <= a < acc.len() ==> (#[trigger] acc[a]).tag.id != e.tag.id);
        lemma_index_none(acc, e.tag.id, 0);
        let acc1 = acc.push(e);
        assert(spec_insert_prop(acc, e) == acc1);
        lemma_fold_distinct(entries, k + 1, acc1);
        assert(acc1 + entries.skip(k + 1) =~= acc + entries.skip(k));
    }
}

/// Property map order-irrelevance: two tables holding the same entries,
/// with pairwise distinct ids, fold to mappings that resolve every id to
/// the same entry, whatever the order of the entries.
pub proof fn lemma_table_order_irrelevant(
    s1: Seq<PropertyEntryModel>,
    s2: Seq<PropertyEntryModel>,
    id: PropertyId,
)
    requires
        s1.to_multiset() == s2.to_multiset(),
        distinct_ids(s1),
    ensures
        table_lookup(s1, id) == table_lookup(s2, id),
{
    broadcast use group_to_multiset_ensures;

    s1.to_multiset_ensures();
    s2.to_multiset_ensures();
    assert(s1.len() == s1.to_multiset().len());
    assert(s2.len() == s2.to_multiset().len());
    assert(s1.len() == s2.len());
    // Same elements on both sides.
    assert forall|x: PropertyEntryModel| s1.contains(x) implies s2.contains(x) by {
        assert(s1.to_multiset().count(x) > 0);
    }
    assert forall|x: PropertyEntryModel| s2.contains(x) implies s1.contains(x) by {
        assert(s2.to_multiset().count(x) > 0);
    }
    // Distinct ids carry over to the permuted table.
    assert forall|i: int, j: int| 0 <= i < j < s2.len() implies s2[i].tag.id != s2[j].tag.id by {
        if s2[i].tag.id == s2[j].tag.id {
            if s2[i] == s2[j] {
                // The same entry would occur twice in s1 as well.
                let r = s2.remove(i);
                r.to_multiset_ensures();
                assert(r.to_multiset() =~= s2.to_multiset().remove(s2[i]));
                assert(r[j - 1] == s2[j]);
                assert(r.contains(s2[j]));
                assert(r.to_multiset().count(s2[i]) > 0);
                assert(s2.to_multiset().count(s2[i]) >= 2);
                assert(s1.to_multiset().count(s2[i]) >= 2);
                assert(s1.contains(s2[i]));
                let a = choose|a: int| 0 <= a < s1.len() && s1[a] == s2[i];
                let r1 = s1.remove(a);
                r1.to_multiset_ensures();
                assert(r1.to_multiset() =~= s1.to_multiset().remove(s1[a]));
                assert(r1.to_multiset().count(s2[i]) > 0);
                assert(r1.contains(s2[i]));
                let b2 = choose|b2: int| 0 <= b2 < r1.len() && r1[b2] == s2[i];
                let orig = if b2 < a {
                    b2
                } else {
                    b2 + 1
                };
                assert(s1[orig] == s2[i] && orig != a);
            } else {
                // Two distinct entries with one id would both live in s1.
                assert(s1.contains(s2[i]));
                assert(s1.contains(s2[j]));
                let a = choose|a: int| 0 <= a < s1.len() && s1[a] == s2[i];
                let b2 = choose|b2: int| 0 <= b2 < s1.len() && s1[b2] == s2[j];
                assert(a != b2);
            }
        }
    }
    lemma_fold_distinct(s1, 0, Seq::empty());
    lemma_fold_distinct(s2, 0, Seq::empty());
    assert(fold_table(s1, 0, Seq::empty()) =~= s1);
    assert(fold_table(s2, 0, Seq::empty()) =~= s2);
    match spec_prop_index(s1, id, 0) {
        Some(i1) => {
            lemma_index_found(s1, id, 0, i1);
            let p = s1[i1];
            assert(s1.contains(p));
            assert(s2.contains(p));
            let w = choose|w: int| 0 <= w < s2.len() && s2[w] == p;
            lemma_index_some(s2, id, 0, w);
            let i2 = spec_prop_index(s2, id, 0)->Some_0;
            lemma_index_found(s2, id, 0, i2);
            let q = s2[i2];
            assert(s1.contains(q));
            let v = choose|v: int| 0 <= v < s1.len() && s1[v] == q;
            // Both p and q live in s1 and share the id: they are the same.
            assert(s1[v].tag.id == id && s1[i1].tag.id == id);
            assert(v == i1);
        },
        None => {
            assert forall|j: int| 0 <= j < s2.len() implies s2[j].tag.id != id by {
                if s2[j].tag.id == id {
                    assert(s1.contains(s2[j]));
                    let w = choose|w: int| 0 <= w < s1.len() && s1[w] == s2[j];
                    lemma_index_some(s1, id, 0, w);
                }
            }
            lemma_index_none(s2, id, 0);
        },
    }
}

/// Idempotence: the decoded model is a function of the input bytes alone,
/// so decoding the same buffer twice yields equal models.
pub proof fn lemma_parse_idempotent(
    b: Seq<u8>,
    r1: Result<MsgFileModel, MsgError>,
    r2: Result<MsgFileModel, MsgError>,
)
    requires
        r1 == spec_parse_msg(b),
        r2 == spec_parse_msg(b),
    ensures
        r1 == r2,
{
}

} // verus!
