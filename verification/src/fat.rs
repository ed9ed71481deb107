//! Sector allocation tables: the FAT and MiniFAT entry arrays, and the sector
//! chains they induce. A chain starts at some sector and follows `fat[s]`
//! until the `ENDOFCHAIN` sentinel; any out-of-range lookup also ends it.

use vstd::prelude::*;
use crate::MsgError;
use crate::bytes::le32;

verus! {

/// Size of a mini-sector in bytes.
pub const MINIFAT_SECTOR_SIZE: usize = 64;

/// Maximum regular sector number.
pub const MAXREGSECT: u32 = 0xFFFFFFFA;

/// Reserved for future use.
pub const RESERVEDSECT: u32 = 0xFFFFFFFB;

/// Marks a DIFAT sector in the FAT.
pub const DIFSECT: u32 = 0xFFFFFFFC;

/// Marks a FAT sector in the FAT.
pub const FATSECT: u32 = 0xFFFFFFFD;

/// End of a linked chain of sectors.
pub const ENDOFCHAIN: u32 = 0xFFFFFFFE;

/// An unallocated sector in the FAT, MiniFAT, or DIFAT.
pub const FREESECT: u32 = 0xFFFFFFFF;

/// The sector that follows `s` in the allocation table `fat`; a lookup
/// outside the table ends the chain.
pub open spec fn chain_next(fat: Seq<u32>, s: u32) -> u32 {
    if (s as int) < fat.len() {
        fat[s as int]
    } else {
        ENDOFCHAIN
    }
}

/// The chain of sectors starting at `s`: `None` if it does not reach
/// `ENDOFCHAIN` within `fuel` steps.
pub open spec fn chain_from(fat: Seq<u32>, s: u32, fuel: nat) -> Option<Seq<u32>>
    decreases fuel,
{
    if s == ENDOFCHAIN {
        Some(Seq::empty())
    } else if fuel == 0 {
        None
    } else {
        match chain_from(fat, chain_next(fat, s), (fuel - 1) as nat) {
            Some(rest) => Some(seq![s] + rest),
            None => None,
        }
    }
}

/// More fuel never changes a chain that already terminated.
pub proof fn lemma_chain_fuel(fat: Seq<u32>, s: u32, f1: nat, f2: nat)
    requires
        f1 <= f2,
        chain_from(fat, s, f1) is Some,
    ensures
        chain_from(fat, s, f2) == chain_from(fat, s, f1),
    decreases f1,
{
    if s == ENDOFCHAIN {
    } else {
        lemma_chain_fuel(fat, chain_next(fat, s), (f1 - 1) as nat, (f2 - 1) as nat);
    }
}

/// Every tail of a terminating chain is itself the chain of its first sector.
pub proof fn lemma_chain_suffix(fat: Seq<u32>, s: u32, fuel: nat, c: Seq<u32>, i: int)
    requires
        chain_from(fat, s, fuel) == Some(c),
        0 <= i <= c.len(),
    ensures
        chain_from(fat, if i < c.len() { c[i] } else { ENDOFCHAIN }, (fuel - i) as nat)
            == Some(c.skip(i)),
        i <= fuel || i == 0,
    decreases i,
{
    if i == 0 {
        assert(c.skip(0) =~= c);
    } else {
        // c is non-empty, so s != ENDOFCHAIN and c == seq![s] + rest.
        let rest = chain_from(fat, chain_next(fat, s), (fuel - 1) as nat)->Some_0;
        lemma_chain_suffix(fat, chain_next(fat, s), (fuel - 1) as nat, rest, i - 1);
        assert(c =~= seq![s] + rest);
        assert(c.skip(i) =~= rest.skip(i - 1));
    }
}

/// A chain that terminates never revisits a sector.
pub proof fn lemma_chain_distinct(fat: Seq<u32>, s: u32, fuel: nat, c: Seq<u32>)
    requires
        chain_from(fat, s, fuel) == Some(c),
    ensures
        forall|i: int, j: int| 0 <= i < j < c.len() ==> c[i] != c[j],
{
    assert forall|i: int, j: int| 0 <= i < j < c.len() implies c[i] != c[j] by {
        if c[i] == c[j] {
            lemma_chain_suffix(fat, s, fuel, c, i);
            lemma_chain_suffix(fat, s, fuel, c, j);
            // The chain from c[i] both has length c.len() - i and, since
            // c[i] == c[j], length c.len() - j: impossible for i < j.
            lemma_chain_fuel(fat, c[i], (fuel - j) as nat, (fuel - i) as nat);
            assert(c.skip(i).len() == c.skip(j).len());
        }
    }
}

/// A terminating chain's value does not depend on the fuel that found it.
pub proof fn lemma_chain_trim(fat: Seq<u32>, s: u32, fuel: nat, c: Seq<u32>)
    requires
        chain_from(fat, s, fuel) == Some(c),
    ensures
        chain_from(fat, s, c.len() as nat) == Some(c),
    decreases fuel,
{
    if s != ENDOFCHAIN {
        let rest = chain_from(fat, chain_next(fat, s), (fuel - 1) as nat)->Some_0;
        lemma_chain_trim(fat, chain_next(fat, s), (fuel - 1) as nat, rest);
        assert(c.len() == rest.len() + 1);
    }
}

/// A terminating chain holds at most one sector per allocation table slot,
/// plus possibly one final out-of-range sector.
pub proof fn lemma_chain_len_bound(fat: Seq<u32>, s: u32, fuel: nat, c: Seq<u32>)
    requires
        chain_from(fat, s, fuel) == Some(c),
    ensures
        c.len() <= fat.len() + 1,
{
    if c.len() > fat.len() + 1 {
        lemma_chain_distinct(fat, s, fuel, c);
        // Every sector but the last indexes the table: an out-of-range one
        // ends the chain right after itself.
        assert forall|i: int| 0 <= i < c.len() - 1 implies (c[i] as int) < fat.len() by {
            lemma_chain_suffix(fat, s, fuel, c, i);
            if (c[i] as int) >= fat.len() {
                // The chain from c[i] would end immediately, yet it still
                // carries c.len() - i > 1 sectors.
                let fuel_i = (fuel - i) as nat;
                assert(chain_from(fat, c[i], fuel_i) == Some(c.skip(i)));
                assert(c.skip(i).len() == c.len() - i);
                assert(c[i] != ENDOFCHAIN);
                assert(fuel_i > 0);
                assert(chain_next(fat, c[i]) == ENDOFCHAIN);
                assert(chain_from(fat, ENDOFCHAIN, (fuel_i - 1) as nat) == Some(Seq::<
                    u32,
                >::empty()));
                assert(c.skip(i) =~= seq![c[i]] + Seq::<u32>::empty());
            }
        }
        let front = c.take(c.len() - 1).map_values(|x: u32| x as int);
        assert(front.no_duplicates()) by {
            assert forall|i: int, j: int|
                0 <= i < front.len() && 0 <= j < front.len() && i != j implies front[i]
                != front[j] by {
                assert(c[i] != c[j]);
            }
        }
        front.unique_seq_to_set();
        let range = vstd::set_lib::set_int_range(0, fat.len() as int);
        vstd::set_lib::lemma_int_range(0, fat.len() as int);
        assert forall|x: int| front.to_set().contains(x) implies range.contains(x) by {
            let i = choose|i: int| 0 <= i < front.len() && front[i] == x;
            assert((c[i] as int) < fat.len());
        }
        assert(front.to_set().subset_of(range));
        vstd::set_lib::lemma_len_subset(front.to_set(), range);
    }
}

/// `Some(pre + r)` when `r` holds a sequence, else `None`.
pub open spec fn opt_prepend(pre: Seq<u32>, r: Option<Seq<u32>>) -> Option<Seq<u32>> {
    match r {
        Some(rest) => Some(pre + rest),
        None => None,
    }
}

/// Follows the chain starting at `start` through `fat`, failing once the
/// chain grows past `cap` sectors, which only a cycle can cause when `cap`
/// is at least `fat.len() + 1`.
pub fn follow_chain(fat: &Vec<u32>, start: u32, cap: usize) -> (r: Result<Vec<u32>, MsgError>)
    ensures
        r matches Ok(c) ==> chain_from(fat@, start, c@.len() as nat) == Some(c@) && c@.len() <= cap
            + 1,
        r matches Err(e) ==> e == MsgError::ChainLengthMismatch && chain_from(
            fat@,
            start,
            (cap + 1) as nat,
        ) is None,
        r is Err && cap >= fat@.len() ==> forall|f: nat| chain_from(fat@, start, f) is None,
{
    let mut out: Vec<u32> = Vec::new();
    let mut cur: u32 = start;
    loop
        invariant
            out@.len() <= cap + 1,
            forall|f: nat|
                chain_from(fat@, start, (out@.len() + f) as nat) == opt_prepend(
                    out@,
                    chain_from(fat@, cur, f),
                ),
        decreases cap + 2 - out@.len(),
    {
        proof {
            assert(Seq::<u32>::empty() + Seq::<u32>::empty() =~= Seq::<u32>::empty());
        }
        if cur == ENDOFCHAIN {
            proof {
                let f0: nat = 0;
                assert(chain_from(fat@, start, (out@.len() + f0) as nat) == opt_prepend(
                    out@,
                    chain_from(fat@, cur, f0),
                ));
                assert(out@ + Seq::<u32>::empty() =~= out@);
            }
            return Ok(out);
        }
        if out.len() > cap {
            proof {
                let f0: nat = 0;
                assert(chain_from(fat@, start, (out@.len() + f0) as nat) == opt_prepend(
                    out@,
                    chain_from(fat@, cur, f0),
                ));
                assert(chain_from(fat@, cur, f0) is None);
                if chain_from(fat@, start, (cap + 1) as nat) is Some {
                    lemma_chain_fuel(fat@, start, (cap + 1) as nat, out@.len() as nat);
                }
                if cap >= fat@.len() {
                    assert forall|f: nat| chain_from(fat@, start, f) is None by {
                        match chain_from(fat@, start, f) {
                            Some(c) => {
                                lemma_chain_len_bound(fat@, start, f, c);
                                lemma_chain_trim(fat@, start, f, c);
                                lemma_chain_fuel(fat@, start, c.len() as nat, (cap + 1) as nat);
                            },
                            None => {},
                        }
                    }
                }
            }
            return Err(MsgError::ChainLengthMismatch);
        }
        let ghost old_out = out@;
        let ghost old_cur = cur;
        let next: u32 = if (cur as usize) < fat.len() {
            fat[cur as usize]
        } else {
            ENDOFCHAIN
        };
        out.push(cur);
        cur = next;
        proof {
            assert(next == chain_next(fat@, old_cur));
            assert forall|f: nat|
                chain_from(fat@, start, (out@.len() + f) as nat) == opt_prepend(
                    out@,
                    chain_from(fat@, cur, f),
                ) by {
                let f1: nat = (f + 1) as nat;
                assert(chain_from(fat@, start, (old_out.len() + f1) as nat) == opt_prepend(
                    old_out,
                    chain_from(fat@, old_cur, f1),
                ));
                match chain_from(fat@, cur, f) {
                    Some(rest) => {
                        assert(chain_from(fat@, old_cur, f1) == Some(seq![old_cur] + rest));
                        assert(old_out + (seq![old_cur] + rest) =~= out@ + rest);
                    },
                    None => {},
                }
            }
        }
    }
}

/// The `n` little-endian 32-bit entries at the start of `b`.
pub open spec fn entries_of(b: Seq<u8>, n: int) -> Seq<u32>
    recommends
        4 * n <= b.len(),
{
    Seq::new(n as nat, |i: int| le32(b, 4 * i))
}

/// Reads `n` little-endian 32-bit entries from the start of `input`.
pub fn parse_entries(input: &[u8], n: usize) -> (r: Result<Vec<u32>, MsgError>)
    requires
        4 * n <= usize::MAX,
    ensures
        input@.len() >= 4 * n ==> (r matches Ok(v) && v@ == entries_of(input@, n as int)),
        input@.len() < 4 * n ==> (r matches Err(e) && e == MsgError::TruncatedInput),
{
    if input.len() < 4 * n {
        return Err(MsgError::TruncatedInput);
    }
    let mut v: Vec<u32> = Vec::new();
    let mut i: usize = 0;
    while i < n
        invariant
            i <= n,
            4 * n <= usize::MAX,
            4 * n <= input@.len(),
            v@ == Seq::new(i as nat, |k: int| le32(input@, 4 * k)),
        decreases n - i,
    {
        v.push(crate::bytes::read_le32(input, 4 * i));
        assert(v@ =~= Seq::new((i + 1) as nat, |k: int| le32(input@, 4 * k)));
        i = i + 1;
    }
    Ok(v)
}

/// One version-3 FAT sector: 128 entries.
#[derive(Debug, Clone, PartialEq, Eq)]
pub struct FatV3 {
    pub entries: Vec<u32>,
}

impl FatV3 {
    /// Decodes the 128 entries of a 512-byte FAT sector.
    pub fn parse(input: &[u8]) -> (r: Result<Self, MsgError>)
        ensures
            input@.len() >= 512 ==> (r matches Ok(f) && f.entries@ == entries_of(input@, 128)),
            input@.len() < 512 ==> (r matches Err(e) && e == MsgError::TruncatedInput),
    {
        match parse_entries(input, 128) {
            Ok(entries) => Ok(FatV3 { entries }),
            Err(e) => Err(e),
        }
    }
}

/// One version-4 FAT sector: 1024 entries.
#[derive(Debug, Clone, PartialEq, Eq)]
pub struct FatV4 {
    pub entries: Vec<u32>,
}

impl FatV4 {
    /// Decodes the 1024 entries of a 4096-byte FAT sector.
    pub fn parse(input: &[u8]) -> (r: Result<Self, MsgError>)
        ensures
            input@.len() >= 4096 ==> (r matches Ok(f) && f.entries@ == entries_of(input@, 1024)),
            input@.len() < 4096 ==> (r matches Err(e) && e == MsgError::TruncatedInput),
    {
        match parse_entries(input, 1024) {
            Ok(entries) => Ok(FatV4 { entries }),
            Err(e) => Err(e),
        }
    }
}

} // verus!
