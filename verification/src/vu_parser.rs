//! Reading a vehicle unit download: a sequence of blocks, each introduced
//! by the service identifier 0x76 and a transfer response parameter (TREP)
//! that names the block.
use crate::cursor::{bytes_ok, Cursor, Parse, ParseError};
use crate::dt::gen1::{
    VuActivitiesBlock, VuCompanyLocksBlock, VuDetailedSpeedData, VuEventsAndFaultsBlock,
    VuOverviewBlock,
};
use crate::dt::gen2::{
    VuActivitiesBlockGen2, VuCompanyLocksBlockGen2, VuEventsAndFaultsBlockGen2,
    VuOverviewBlockGen2, VuSpeedBlockGen2,
};
use crate::dt::gen2v2::{VuActivitiesBlockGen2V2, VuCompanyLocksGen2V2, VuOverviewBlockGen2V2};
use vstd::prelude::*;
use vstd::slice::slice_to_vec;

verus! {

/// The generation of a download, as its first block says: 1 for generation 1,
/// 2 for generation 2, 3 for version 2 of generation 2, 0 when the first two
/// bytes name none of these.
pub open spec fn vu_generation(d: Seq<u8>) -> int {
    if d.len() >= 2 && d[0] == 0x76 {
        if 0x01 <= d[1] <= 0x05 {
            1
        } else if 0x21 <= d[1] <= 0x25 {
            2
        } else if 0x31 <= d[1] <= 0x35 {
            3
        } else {
            0
        }
    } else {
        0
    }
}

/// The blocks that a download of generation `g` (as `vu_generation` numbers them) can hold.
pub open spec fn vu_block_known(g: int, t: u8) -> bool {
    if g == 1 {
        t == 0x01 || t == 0x02 || t == 0x03 || t == 0x04 || t == 0x05
    } else if g == 2 {
        t == 0x21 || t == 0x22 || t == 0x23 || t == 0x24 || t == 0x25
    } else {
        t == 0x31 || t == 0x32 || t == 0x33 || t == 0x35
    }
}

/// Where the reader stands after the known block whose header is at `q`.
pub open spec fn vu_block_end(g: int, d: Seq<u8>, q: int) -> int {
    let t = d[q + 1];
    if g == 1 {
        if t == 0x01 { VuOverviewBlock::parse_end(d, q + 2) } else if t == 0x02 { VuActivitiesBlock::parse_end(d, q + 2) } else if t == 0x03 { VuEventsAndFaultsBlock::parse_end(d, q + 2) } else if t == 0x04 { VuDetailedSpeedData::parse_end(d, q + 2) } else { VuCompanyLocksBlock::parse_end(d, q + 2) }
    } else if g == 2 {
        if t == 0x21 { VuOverviewBlockGen2::parse_end(d, q + 2) } else if t == 0x22 { VuActivitiesBlockGen2::parse_end(d, q + 2) } else if t == 0x23 { VuEventsAndFaultsBlockGen2::parse_end(d, q + 2) } else if t == 0x24 { VuSpeedBlockGen2::parse_end(d, q + 2) } else { VuCompanyLocksBlockGen2::parse_end(d, q + 2) }
    } else {
        if t == 0x31 { VuOverviewBlockGen2V2::parse_end(d, q + 2) } else if t == 0x32 { VuActivitiesBlockGen2V2::parse_end(d, q + 2) } else if t == 0x33 { VuEventsAndFaultsBlockGen2::parse_end(d, q + 2) } else { VuCompanyLocksGen2V2::parse_end(d, q + 2) }
    }
}

/// The known block whose header is at `q` reads.
pub open spec fn vu_block_ok(g: int, d: Seq<u8>, q: int) -> bool {
    let t = d[q + 1];
    if g == 1 {
        if t == 0x01 { VuOverviewBlock::parse_ok(d, q + 2) } else if t == 0x02 { VuActivitiesBlock::parse_ok(d, q + 2) } else if t == 0x03 { VuEventsAndFaultsBlock::parse_ok(d, q + 2) } else if t == 0x04 { VuDetailedSpeedData::parse_ok(d, q + 2) } else { VuCompanyLocksBlock::parse_ok(d, q + 2) }
    } else if g == 2 {
        if t == 0x21 { VuOverviewBlockGen2::parse_ok(d, q + 2) } else if t == 0x22 { VuActivitiesBlockGen2::parse_ok(d, q + 2) } else if t == 0x23 { VuEventsAndFaultsBlockGen2::parse_ok(d, q + 2) } else if t == 0x24 { VuSpeedBlockGen2::parse_ok(d, q + 2) } else { VuCompanyLocksBlockGen2::parse_ok(d, q + 2) }
    } else {
        if t == 0x31 { VuOverviewBlockGen2V2::parse_ok(d, q + 2) } else if t == 0x32 { VuActivitiesBlockGen2V2::parse_ok(d, q + 2) } else if t == 0x33 { VuEventsAndFaultsBlockGen2::parse_ok(d, q + 2) } else { VuCompanyLocksGen2V2::parse_ok(d, q + 2) }
    }
}

/// The error of a read of the known block whose header is at `q` that fails.
pub open spec fn vu_block_err(g: int, d: Seq<u8>, q: int) -> ParseError {
    let t = d[q + 1];
    if g == 1 {
        if t == 0x01 { VuOverviewBlock::parse_err(d, q + 2) } else if t == 0x02 { VuActivitiesBlock::parse_err(d, q + 2) } else if t == 0x03 { VuEventsAndFaultsBlock::parse_err(d, q + 2) } else if t == 0x04 { VuDetailedSpeedData::parse_err(d, q + 2) } else { VuCompanyLocksBlock::parse_err(d, q + 2) }
    } else if g == 2 {
        if t == 0x21 { VuOverviewBlockGen2::parse_err(d, q + 2) } else if t == 0x22 { VuActivitiesBlockGen2::parse_err(d, q + 2) } else if t == 0x23 { VuEventsAndFaultsBlockGen2::parse_err(d, q + 2) } else if t == 0x24 { VuSpeedBlockGen2::parse_err(d, q + 2) } else { VuCompanyLocksBlockGen2::parse_err(d, q + 2) }
    } else {
        if t == 0x31 { VuOverviewBlockGen2V2::parse_err(d, q + 2) } else if t == 0x32 { VuActivitiesBlockGen2V2::parse_err(d, q + 2) } else if t == 0x33 { VuEventsAndFaultsBlockGen2::parse_err(d, q + 2) } else { VuCompanyLocksGen2V2::parse_err(d, q + 2) }
    }
}

/// The header at `q` introduces a block that a download of generation `g` reads.
pub open spec fn vu_entry_read(g: int, d: Seq<u8>, q: int) -> bool {
    0 <= q && bytes_ok(d, q, 2) && d[q] == 0x76 && vu_block_known(g, d[q + 1])
}

/// Where the header of block `k` stands, blocks following one another from the start.
pub open spec fn vu_entry_pos(g: int, d: Seq<u8>, k: nat) -> int
    decreases k,
{
    if k == 0 {
        0
    } else {
        vu_block_end(g, d, vu_entry_pos(g, d, (k - 1) as nat))
    }
}

/// The number of blocks read from block `k` on, `fuel` bounding the count.
pub open spec fn vu_count_from(g: int, d: Seq<u8>, k: nat, fuel: nat) -> nat
    decreases fuel,
{
    if fuel > 0 && vu_entry_read(g, d, vu_entry_pos(g, d, k)) {
        vu_count_from(g, d, k + 1, (fuel - 1) as nat)
    } else {
        k
    }
}

/// The number of blocks read: up to the end of the data or the first header
/// that names no block of the generation. Each block takes at least its two
/// header bytes, so the bound never stops the count early.
pub open spec fn vu_count(g: int, d: Seq<u8>) -> nat {
    vu_count_from(g, d, 0, (d.len() + 1) as nat)
}

/// The first `k` blocks read.
pub open spec fn vu_prefix_ok(g: int, d: Seq<u8>, k: nat) -> bool
    decreases k,
{
    k == 0 || (vu_prefix_ok(g, d, (k - 1) as nat) && vu_block_ok(g, d, vu_entry_pos(g, d, (k - 1) as nat)))
}

/// The header positions, among the first `k` blocks, of those of type `t`.
pub open spec fn vu_entries_with(g: int, d: Seq<u8>, k: nat, t: u8) -> Seq<int>
    decreases k,
{
    if k == 0 {
        Seq::empty()
    } else {
        let prev = vu_entries_with(g, d, (k - 1) as nat, t);
        let q = vu_entry_pos(g, d, (k - 1) as nat);
        if d[q + 1] == t {
            prev.push(q)
        } else {
            prev
        }
    }
}

/// `v` are the blocks whose headers are at `ps`, in order.
pub open spec fn vu_blocks_at<T: Parse>(d: Seq<u8>, ps: Seq<int>, v: Seq<T>) -> bool {
    &&& v.len() == ps.len()
    &&& forall|i: int| 0 <= i < v.len() ==> #[trigger] T::parsed_as(d, ps[i] + 2, v[i])
}

/// `v` is the last of the blocks whose headers are at `ps`, if there is one.
pub open spec fn vu_last_block_at<T: Parse>(d: Seq<u8>, ps: Seq<int>, v: Option<T>) -> bool {
    if ps.len() == 0 {
        v is None
    } else {
        v matches Some(x) && T::parsed_as(d, ps.last() + 2, x)
    }
}

/// A download of generation `g` reads: every block read reads, the data does
/// not stop inside a header, and an overview block is among the blocks.
pub open spec fn vu_gen_ok(g: int, d: Seq<u8>, overview: u8) -> bool {
    let k = vu_count(g, d);
    let s = vu_entry_pos(g, d, k);
    &&& vu_prefix_ok(g, d, k)
    &&& (s >= d.len() || bytes_ok(d, s, 2))
    &&& vu_entries_with(g, d, k, overview).len() > 0
}

/// The download reads.
pub open spec fn vu_parse_ok(d: Seq<u8>) -> bool {
    let g = vu_generation(d);
    if g == 1 {
        vu_gen_ok(1, d, 0x01)
    } else if g == 2 {
        vu_gen_ok(2, d, 0x21)
    } else if g == 3 {
        vu_gen_ok(3, d, 0x31)
    } else {
        false
    }
}

/// The error of the first of the first `k` blocks that does not read, if any.
pub open spec fn vu_err_upto(g: int, d: Seq<u8>, k: nat) -> Option<ParseError>
    decreases k,
{
    if k == 0 {
        None
    } else {
        match vu_err_upto(g, d, (k - 1) as nat) {
            Some(e) => Some(e),
            None => {
                let q = vu_entry_pos(g, d, (k - 1) as nat);
                if vu_block_ok(g, d, q) {
                    None
                } else {
                    Some(vu_block_err(g, d, q))
                }
            },
        }
    }
}

/// The error of a download of generation `g` that does not read: that of
/// the first block that does not read; else `UnexpectedEnd` where the data
/// stops inside a header; else `MissingBlock`, for the missing overview.
pub open spec fn vu_gen_err(g: int, d: Seq<u8>) -> ParseError {
    let k = vu_count(g, d);
    let s = vu_entry_pos(g, d, k);
    match vu_err_upto(g, d, k) {
        Some(e) => e,
        None => if !(s >= d.len() || bytes_ok(d, s, 2)) {
            ParseError::UnexpectedEnd
        } else {
            ParseError::MissingBlock
        },
    }
}

/// The error of a download that does not read; `UnsupportedFileType` where
/// its first block names no generation.
pub open spec fn vu_parse_err(d: Seq<u8>) -> ParseError {
    let g = vu_generation(d);
    if 1 <= g <= 3 {
        vu_gen_err(g, d)
    } else {
        ParseError::UnsupportedFileType
    }
}

proof fn lemma_vu_count_ge(g: int, d: Seq<u8>, k: nat, fuel: nat)
    ensures
        vu_count_from(g, d, k, fuel) >= k,
    decreases fuel,
{
    if fuel > 0 && vu_entry_read(g, d, vu_entry_pos(g, d, k)) {
        lemma_vu_count_ge(g, d, k + 1, (fuel - 1) as nat);
    }
}

proof fn lemma_vu_prefix_mono(g: int, d: Seq<u8>, k: nat, m: nat)
    requires
        k <= m,
    ensures
        vu_prefix_ok(g, d, m) ==> vu_prefix_ok(g, d, k),
    decreases m,
{
    if k < m {
        lemma_vu_prefix_mono(g, d, k, (m - 1) as nat);
    }
}

/// No block among the first `k` fails exactly when all of them read.
proof fn lemma_vu_err_upto_none(g: int, d: Seq<u8>, k: nat)
    ensures
        vu_err_upto(g, d, k) is None <==> vu_prefix_ok(g, d, k),
    decreases k,
{
    if k > 0 {
        lemma_vu_err_upto_none(g, d, (k - 1) as nat);
    }
}

/// The error of the first failing block stays the first error as more blocks are counted.
proof fn lemma_vu_err_upto_stays(g: int, d: Seq<u8>, k: nat, m: nat)
    requires
        k <= m,
        vu_err_upto(g, d, k) is Some,
    ensures
        vu_err_upto(g, d, m) == vu_err_upto(g, d, k),
    decreases m,
{
    if k < m {
        lemma_vu_err_upto_stays(g, d, k, (m - 1) as nat);
    }
}

/// When the first `k` blocks read and block `k`, one that is read, does
/// not, its error is the error of the download.
proof fn lemma_vu_block_fails(g: int, d: Seq<u8>, k: nat)
    requires
        vu_prefix_ok(g, d, k),
        k < vu_count(g, d),
        !vu_block_ok(g, d, vu_entry_pos(g, d, k)),
    ensures
        vu_gen_err(g, d) == vu_block_err(g, d, vu_entry_pos(g, d, k)),
{
    lemma_vu_err_upto_none(g, d, k);
    lemma_vu_err_upto_stays(g, d, k + 1, vu_count(g, d));
}

/// The blocks of a generation 1 download.
#[derive(Debug)]
pub struct VuGen1Blocks {
    pub vu_overview: VuOverviewBlock,
    pub vu_activities: Vec<VuActivitiesBlock>,
    pub vu_events_and_faults: Vec<VuEventsAndFaultsBlock>,
    pub vu_detailed_speed: Vec<VuDetailedSpeedData>,
    pub vu_company_locks: Vec<VuCompanyLocksBlock>,
}

/// The blocks of a generation 2 download.
#[derive(Debug)]
pub struct VuGen2Blocks {
    pub vu_overview: VuOverviewBlockGen2,
    pub vu_activities: Vec<VuActivitiesBlockGen2>,
    pub vu_events_and_faults: Vec<VuEventsAndFaultsBlockGen2>,
    pub vu_detailed_speed: Vec<VuSpeedBlockGen2>,
    pub vu_company_locks: Vec<VuCompanyLocksBlockGen2>,
}

/// The blocks of a generation 2 version 2 download.
#[derive(Debug)]
pub struct VuGen2V2Blocks {
    pub vu_overview: VuOverviewBlockGen2V2,
    pub vu_activities: Vec<VuActivitiesBlockGen2V2>,
    pub vu_events_and_faults: Vec<VuEventsAndFaultsBlockGen2>,
    pub vu_company_locks: Vec<VuCompanyLocksGen2V2>,
}

/// The blocks of a vehicle unit download, by generation.
#[derive(Debug)]
pub enum VuData {
    Gen1(VuGen1Blocks),
    Gen2(VuGen2Blocks),
    Gen2V2(VuGen2V2Blocks),
}

/// `b` holds the blocks of the generation 1 download `d`: the last overview block and every other block, in order.
pub open spec fn vu_gen1_as(d: Seq<u8>, b: VuGen1Blocks) -> bool {
    let k = vu_count(1, d);
    vu_last_block_at::<VuOverviewBlock>(d, vu_entries_with(1, d, k, 0x01), Some(b.vu_overview))
        && vu_blocks_at::<VuActivitiesBlock>(d, vu_entries_with(1, d, k, 0x02), b.vu_activities@)
        && vu_blocks_at::<VuEventsAndFaultsBlock>(d, vu_entries_with(1, d, k, 0x03), b.vu_events_and_faults@)
        && vu_blocks_at::<VuDetailedSpeedData>(d, vu_entries_with(1, d, k, 0x04), b.vu_detailed_speed@)
        && vu_blocks_at::<VuCompanyLocksBlock>(d, vu_entries_with(1, d, k, 0x05), b.vu_company_locks@)
}

/// `b` holds the blocks of the generation 2 download `d`: the last overview block and every other block, in order.
pub open spec fn vu_gen2_as(d: Seq<u8>, b: VuGen2Blocks) -> bool {
    let k = vu_count(2, d);
    vu_last_block_at::<VuOverviewBlockGen2>(d, vu_entries_with(2, d, k, 0x21), Some(b.vu_overview))
        && vu_blocks_at::<VuActivitiesBlockGen2>(d, vu_entries_with(2, d, k, 0x22), b.vu_activities@)
        && vu_blocks_at::<VuEventsAndFaultsBlockGen2>(d, vu_entries_with(2, d, k, 0x23), b.vu_events_and_faults@)
        && vu_blocks_at::<VuSpeedBlockGen2>(d, vu_entries_with(2, d, k, 0x24), b.vu_detailed_speed@)
        && vu_blocks_at::<VuCompanyLocksBlockGen2>(d, vu_entries_with(2, d, k, 0x25), b.vu_company_locks@)
}

/// `b` holds the blocks of the generation 2 version 2 download `d`: the last overview block and every other block, in order.
pub open spec fn vu_gen2v2_as(d: Seq<u8>, b: VuGen2V2Blocks) -> bool {
    let k = vu_count(3, d);
    vu_last_block_at::<VuOverviewBlockGen2V2>(d, vu_entries_with(3, d, k, 0x31), Some(b.vu_overview))
        && vu_blocks_at::<VuActivitiesBlockGen2V2>(d, vu_entries_with(3, d, k, 0x32), b.vu_activities@)
        && vu_blocks_at::<VuEventsAndFaultsBlockGen2>(d, vu_entries_with(3, d, k, 0x33), b.vu_events_and_faults@)
        && vu_blocks_at::<VuCompanyLocksGen2V2>(d, vu_entries_with(3, d, k, 0x35), b.vu_company_locks@)
}

/// `v` holds the blocks of the download `d`, in the generation that its first block names.
pub open spec fn vu_data_as(d: Seq<u8>, v: VuData) -> bool {
    match v {
        VuData::Gen1(b) => vu_generation(d) == 1 && vu_gen1_as(d, b),
        VuData::Gen2(b) => vu_generation(d) == 2 && vu_gen2_as(d, b),
        VuData::Gen2V2(b) => vu_generation(d) == 3 && vu_gen2v2_as(d, b),
    }
}

/// A parser of vehicle unit downloads, holding the downloaded bytes.
pub struct VuParser {
    input: Vec<u8>,
}

impl VuParser {
    /// The downloaded bytes.
    pub closed spec fn bytes(self) -> Seq<u8> {
        self.input@
    }

    /// A parser of `bytes`.
    pub fn new_from_bytes(bytes: &[u8]) -> (res: Result<VuParser, ParseError>)
        ensures
            res matches Ok(p) && p.bytes() == bytes@,
    {
        Ok(VuParser { input: slice_to_vec(bytes) })
    }

    /// Reads the download in the generation that its first block names.
    pub fn parse(&self) -> (res: Result<VuData, ParseError>)
        requires
            self.bytes().len() >= 2,
        ensures
            res is Ok <==> vu_parse_ok(self.bytes()),
            res matches Ok(v) ==> vu_data_as(self.bytes(), v),
            res matches Err(e) ==> e == vu_parse_err(self.bytes()),
    {
        let trep = self.input[0];
        let sid = self.input[1];
        if trep == 0x76 && 0x01 <= sid && sid <= 0x05 {
            self.parse_gen1()
        } else if trep == 0x76 && 0x21 <= sid && sid <= 0x25 {
            self.parse_gen2()
        } else if trep == 0x76 && 0x31 <= sid && sid <= 0x35 {
            self.parse_gen2v2()
        } else {
            Err(ParseError::UnsupportedFileType)
        }
    }

    /// Reads the blocks of a generation 1 download, from the start up to the end
    /// of the data or the first header that names no block of the generation.
    fn parse_gen1(&self) -> (res: Result<VuData, ParseError>)
        ensures
            res is Ok <==> vu_gen_ok(1, self.bytes(), 0x01),
            res matches Ok(v) ==> v matches VuData::Gen1(b) && vu_gen1_as(self.bytes(), b),
            res matches Err(e) ==> e == vu_gen_err(1, self.bytes()),
    {
        let ghost d = self.bytes();
        let mut cursor = Cursor::new(self.input.as_slice());
        let mut vu_overview: Option<VuOverviewBlock> = None;
        let mut vu_activities: Vec<VuActivitiesBlock> = Vec::new();
        let mut vu_events_and_faults: Vec<VuEventsAndFaultsBlock> = Vec::new();
        let mut vu_detailed_speed: Vec<VuDetailedSpeedData> = Vec::new();
        let mut vu_company_locks: Vec<VuCompanyLocksBlock> = Vec::new();
        let ghost mut k: nat = 0;
        loop
            invariant_except_break
                cursor.pos() == vu_entry_pos(1, d, k),
                2 * k <= cursor.pos(),
            invariant
                cursor.data() == d,
                d == self.bytes(),
                vu_count(1, d) == vu_count_from(1, d, k, (d.len() + 1 - k) as nat),
                vu_count(1, d) >= k,
                vu_prefix_ok(1, d, k),
                vu_last_block_at::<VuOverviewBlock>(d, vu_entries_with(1, d, k, 0x01), vu_overview),
                vu_blocks_at::<VuActivitiesBlock>(d, vu_entries_with(1, d, k, 0x02), vu_activities@),
                vu_blocks_at::<VuEventsAndFaultsBlock>(d, vu_entries_with(1, d, k, 0x03), vu_events_and_faults@),
                vu_blocks_at::<VuDetailedSpeedData>(d, vu_entries_with(1, d, k, 0x04), vu_detailed_speed@),
                vu_blocks_at::<VuCompanyLocksBlock>(d, vu_entries_with(1, d, k, 0x05), vu_company_locks@),
            ensures
                vu_count(1, d) == k,
                vu_prefix_ok(1, d, k),
                vu_entry_pos(1, d, k) >= d.len() || bytes_ok(d, vu_entry_pos(1, d, k), 2),
                vu_last_block_at::<VuOverviewBlock>(d, vu_entries_with(1, d, k, 0x01), vu_overview),
                vu_blocks_at::<VuActivitiesBlock>(d, vu_entries_with(1, d, k, 0x02), vu_activities@),
                vu_blocks_at::<VuEventsAndFaultsBlock>(d, vu_entries_with(1, d, k, 0x03), vu_events_and_faults@),
                vu_blocks_at::<VuDetailedSpeedData>(d, vu_entries_with(1, d, k, 0x04), vu_detailed_speed@),
                vu_blocks_at::<VuCompanyLocksBlock>(d, vu_entries_with(1, d, k, 0x05), vu_company_locks@),
            decreases vu_count(1, d) - k,
        {
            if !cursor.has_remaining() {
                break;
            }
            let ghost q = cursor.pos();
            proof {
                lemma_vu_count_ge(1, d, k + 1, (d.len() - k) as nat);
            }
            let sid = cursor.read_u8()?;
            let trep = match cursor.read_u8() {
                Ok(t) => t,
                Err(e) => {
                    proof {
                        lemma_vu_err_upto_none(1, d, k);
                    }
                    return Err(e);
                },
            };
            if sid == 0x76 && trep == 0x01 {
                proof {
                    lemma_vu_prefix_mono(1, d, k + 1, vu_count(1, d));
                }
                let block = match VuOverviewBlock::parse(&mut cursor) {
                    Ok(b) => b,
                    Err(e) => {
                        proof {
                            lemma_vu_block_fails(1, d, k);
                        }
                        return Err(e);
                    },
                };
                vu_overview = Some(block);
            } else if sid == 0x76 && trep == 0x02 {
                proof {
                    lemma_vu_prefix_mono(1, d, k + 1, vu_count(1, d));
                }
                let ghost before = vu_activities@;
                let block = match VuActivitiesBlock::parse(&mut cursor) {
                    Ok(b) => b,
                    Err(e) => {
                        proof {
                            lemma_vu_block_fails(1, d, k);
                        }
                        return Err(e);
                    },
                };
                vu_activities.push(block);
                proof {
                    let ps = vu_entries_with(1, d, k + 1, 0x02);
                    assert(ps == vu_entries_with(1, d, k, 0x02).push(q));
                    assert forall|i: int| 0 <= i < vu_activities@.len() implies #[trigger] VuActivitiesBlock::parsed_as(d, ps[i] + 2, vu_activities@[i]) by {
                        if i < before.len() {
                            assert(vu_activities@[i] == before[i]);
                        }
                    }
                }
            } else if sid == 0x76 && trep == 0x03 {
                proof {
                    lemma_vu_prefix_mono(1, d, k + 1, vu_count(1, d));
                }
                let ghost before = vu_events_and_faults@;
                let block = match VuEventsAndFaultsBlock::parse(&mut cursor) {
                    Ok(b) => b,
                    Err(e) => {
                        proof {
                            lemma_vu_block_fails(1, d, k);
                        }
                        return Err(e);
                    },
                };
                vu_events_and_faults.push(block);
                proof {
                    let ps = vu_entries_with(1, d, k + 1, 0x03);
                    assert(ps == vu_entries_with(1, d, k, 0x03).push(q));
                    assert forall|i: int| 0 <= i < vu_events_and_faults@.len() implies #[trigger] VuEventsAndFaultsBlock::parsed_as(d, ps[i] + 2, vu_events_and_faults@[i]) by {
                        if i < before.len() {
                            assert(vu_events_and_faults@[i] == before[i]);
                        }
                    }
                }
            } else if sid == 0x76 && trep == 0x04 {
                proof {
                    lemma_vu_prefix_mono(1, d, k + 1, vu_count(1, d));
                }
                let ghost before = vu_detailed_speed@;
                let block = match VuDetailedSpeedData::parse(&mut cursor) {
                    Ok(b) => b,
                    Err(e) => {
                        proof {
                            lemma_vu_block_fails(1, d, k);
                        }
                        return Err(e);
                    },
                };
                vu_detailed_speed.push(block);
                proof {
                    let ps = vu_entries_with(1, d, k + 1, 0x04);
                    assert(ps == vu_entries_with(1, d, k, 0x04).push(q));
                    assert forall|i: int| 0 <= i < vu_detailed_speed@.len() implies #[trigger] VuDetailedSpeedData::parsed_as(d, ps[i] + 2, vu_detailed_speed@[i]) by {
                        if i < before.len() {
                            assert(vu_detailed_speed@[i] == before[i]);
                        }
                    }
                }
            } else if sid == 0x76 && trep == 0x05 {
                proof {
                    lemma_vu_prefix_mono(1, d, k + 1, vu_count(1, d));
                }
                let ghost before = vu_company_locks@;
                let block = match VuCompanyLocksBlock::parse(&mut cursor) {
                    Ok(b) => b,
                    Err(e) => {
                        proof {
                            lemma_vu_block_fails(1, d, k);
                        }
                        return Err(e);
                    },
                };
                vu_company_locks.push(block);
                proof {
                    let ps = vu_entries_with(1, d, k + 1, 0x05);
                    assert(ps == vu_entries_with(1, d, k, 0x05).push(q));
                    assert forall|i: int| 0 <= i < vu_company_locks@.len() implies #[trigger] VuCompanyLocksBlock::parsed_as(d, ps[i] + 2, vu_company_locks@[i]) by {
                        if i < before.len() {
                            assert(vu_company_locks@[i] == before[i]);
                        }
                    }
                }
            } else {
                break;
            }
            proof {
                k = k + 1;
            }
        }
        proof {
            lemma_vu_prefix_mono(1, d, k, vu_count(1, d));
            lemma_vu_err_upto_none(1, d, k);
        }
        let vu_overview = match vu_overview {
            Some(b) => b,
            None => return Err(ParseError::MissingBlock),
        };
        Ok(VuData::Gen1(VuGen1Blocks { vu_overview, vu_activities, vu_events_and_faults, vu_detailed_speed, vu_company_locks }))
    }

    /// Reads the blocks of a generation 2 download, from the start up to the end
    /// of the data or the first header that names no block of the generation.
    fn parse_gen2(&self) -> (res: Result<VuData, ParseError>)
        ensures
            res is Ok <==> vu_gen_ok(2, self.bytes(), 0x21),
            res matches Ok(v) ==> v matches VuData::Gen2(b) && vu_gen2_as(self.bytes(), b),
            res matches Err(e) ==> e == vu_gen_err(2, self.bytes()),
    {
        let ghost d = self.bytes();
        let mut cursor = Cursor::new(self.input.as_slice());
        let mut vu_overview: Option<VuOverviewBlockGen2> = None;
        let mut vu_activities: Vec<VuActivitiesBlockGen2> = Vec::new();
        let mut vu_events_and_faults: Vec<VuEventsAndFaultsBlockGen2> = Vec::new();
        let mut vu_detailed_speed: Vec<VuSpeedBlockGen2> = Vec::new();
        let mut vu_company_locks: Vec<VuCompanyLocksBlockGen2> = Vec::new();
        let ghost mut k: nat = 0;
        loop
            invariant_except_break
                cursor.pos() == vu_entry_pos(2, d, k),
                2 * k <= cursor.pos(),
            invariant
                cursor.data() == d,
                d == self.bytes(),
                vu_count(2, d) == vu_count_from(2, d, k, (d.len() + 1 - k) as nat),
                vu_count(2, d) >= k,
                vu_prefix_ok(2, d, k),
                vu_last_block_at::<VuOverviewBlockGen2>(d, vu_entries_with(2, d, k, 0x21), vu_overview),
                vu_blocks_at::<VuActivitiesBlockGen2>(d, vu_entries_with(2, d, k, 0x22), vu_activities@),
                vu_blocks_at::<VuEventsAndFaultsBlockGen2>(d, vu_entries_with(2, d, k, 0x23), vu_events_and_faults@),
                vu_blocks_at::<VuSpeedBlockGen2>(d, vu_entries_with(2, d, k, 0x24), vu_detailed_speed@),
                vu_blocks_at::<VuCompanyLocksBlockGen2>(d, vu_entries_with(2, d, k, 0x25), vu_company_locks@),
            ensures
                vu_count(2, d) == k,
                vu_prefix_ok(2, d, k),
                vu_entry_pos(2, d, k) >= d.len() || bytes_ok(d, vu_entry_pos(2, d, k), 2),
                vu_last_block_at::<VuOverviewBlockGen2>(d, vu_entries_with(2, d, k, 0x21), vu_overview),
                vu_blocks_at::<VuActivitiesBlockGen2>(d, vu_entries_with(2, d, k, 0x22), vu_activities@),
                vu_blocks_at::<VuEventsAndFaultsBlockGen2>(d, vu_entries_with(2, d, k, 0x23), vu_events_and_faults@),
                vu_blocks_at::<VuSpeedBlockGen2>(d, vu_entries_with(2, d, k, 0x24), vu_detailed_speed@),
                vu_blocks_at::<VuCompanyLocksBlockGen2>(d, vu_entries_with(2, d, k, 0x25), vu_company_locks@),
            decreases vu_count(2, d) - k,
        {
            if !cursor.has_remaining() {
                break;
            }
            let ghost q = cursor.pos();
            proof {
                lemma_vu_count_ge(2, d, k + 1, (d.len() - k) as nat);
            }
            let sid = cursor.read_u8()?;
            let trep = match cursor.read_u8() {
                Ok(t) => t,
                Err(e) => {
                    proof {
                        lemma_vu_err_upto_none(2, d, k);
                    }
                    return Err(e);
                },
            };
            if sid == 0x76 && trep == 0x21 {
                proof {
                    lemma_vu_prefix_mono(2, d, k + 1, vu_count(2, d));
                }
                let block = match VuOverviewBlockGen2::parse(&mut cursor) {
                    Ok(b) => b,
                    Err(e) => {
                        proof {
                            lemma_vu_block_fails(2, d, k);
                        }
                        return Err(e);
                    },
                };
                vu_overview = Some(block);
            } else if sid == 0x76 && trep == 0x22 {
                proof {
                    lemma_vu_prefix_mono(2, d, k + 1, vu_count(2, d));
                }
                let ghost before = vu_activities@;
                let block = match VuActivitiesBlockGen2::parse(&mut cursor) {
                    Ok(b) => b,
                    Err(e) => {
                        proof {
                            lemma_vu_block_fails(2, d, k);
                        }
                        return Err(e);
                    },
                };
                vu_activities.push(block);
                proof {
                    let ps = vu_entries_with(2, d, k + 1, 0x22);
                    assert(ps == vu_entries_with(2, d, k, 0x22).push(q));
                    assert forall|i: int| 0 <= i < vu_activities@.len() implies #[trigger] VuActivitiesBlockGen2::parsed_as(d, ps[i] + 2, vu_activities@[i]) by {
                        if i < before.len() {
                            assert(vu_activities@[i] == before[i]);
                        }
                    }
                }
            } else if sid == 0x76 && trep == 0x23 {
                proof {
                    lemma_vu_prefix_mono(2, d, k + 1, vu_count(2, d));
                }
                let ghost before = vu_events_and_faults@;
                let block = match VuEventsAndFaultsBlockGen2::parse(&mut cursor) {
                    Ok(b) => b,
                    Err(e) => {
                        proof {
                            lemma_vu_block_fails(2, d, k);
                        }
                        return Err(e);
                    },
                };
                vu_events_and_faults.push(block);
                proof {
                    let ps = vu_entries_with(2, d, k + 1, 0x23);
                    assert(ps == vu_entries_with(2, d, k, 0x23).push(q));
                    assert forall|i: int| 0 <= i < vu_events_and_faults@.len() implies #[trigger] VuEventsAndFaultsBlockGen2::parsed_as(d, ps[i] + 2, vu_events_and_faults@[i]) by {
                        if i < before.len() {
                            assert(vu_events_and_faults@[i] == before[i]);
                        }
                    }
                }
            } else if sid == 0x76 && trep == 0x24 {
                proof {
                    lemma_vu_prefix_mono(2, d, k + 1, vu_count(2, d));
                }
                let ghost before = vu_detailed_speed@;
                let block = match VuSpeedBlockGen2::parse(&mut cursor) {
                    Ok(b) => b,
                    Err(e) => {
                        proof {
                            lemma_vu_block_fails(2, d, k);
                        }
                        return Err(e);
                    },
                };
                vu_detailed_speed.push(block);
                proof {
                    let ps = vu_entries_with(2, d, k + 1, 0x24);
                    assert(ps == vu_entries_with(2, d, k, 0x24).push(q));
                    assert forall|i: int| 0 <= i < vu_detailed_speed@.len() implies #[trigger] VuSpeedBlockGen2::parsed_as(d, ps[i] + 2, vu_detailed_speed@[i]) by {
                        if i < before.len() {
                            assert(vu_detailed_speed@[i] == before[i]);
                        }
                    }
                }
            } else if sid == 0x76 && trep == 0x25 {
                proof {
                    lemma_vu_prefix_mono(2, d, k + 1, vu_count(2, d));
                }
                let ghost before = vu_company_locks@;
                let block = match VuCompanyLocksBlockGen2::parse(&mut cursor) {
                    Ok(b) => b,
                    Err(e) => {
                        proof {
                            lemma_vu_block_fails(2, d, k);
                        }
                        return Err(e);
                    },
                };
                vu_company_locks.push(block);
                proof {
                    let ps = vu_entries_with(2, d, k + 1, 0x25);
                    assert(ps == vu_entries_with(2, d, k, 0x25).push(q));
                    assert forall|i: int| 0 <= i < vu_company_locks@.len() implies #[trigger] VuCompanyLocksBlockGen2::parsed_as(d, ps[i] + 2, vu_company_locks@[i]) by {
                        if i < before.len() {
                            assert(vu_company_locks@[i] == before[i]);
                        }
                    }
                }
            } else {
                break;
            }
            proof {
                k = k + 1;
            }
        }
        proof {
            lemma_vu_prefix_mono(2, d, k, vu_count(2, d));
            lemma_vu_err_upto_none(2, d, k);
        }
        let vu_overview = match vu_overview {
            Some(b) => b,
            None => return Err(ParseError::MissingBlock),
        };
        Ok(VuData::Gen2(VuGen2Blocks { vu_overview, vu_activities, vu_events_and_faults, vu_detailed_speed, vu_company_locks }))
    }

    /// Reads the blocks of a generation 2 version 2 download, from the start up to the end
    /// of the data or the first header that names no block of the generation.
    fn parse_gen2v2(&self) -> (res: Result<VuData, ParseError>)
        ensures
            res is Ok <==> vu_gen_ok(3, self.bytes(), 0x31),
            res matches Ok(v) ==> v matches VuData::Gen2V2(b) && vu_gen2v2_as(self.bytes(), b),
            res matches Err(e) ==> e == vu_gen_err(3, self.bytes()),
    {
        let ghost d = self.bytes();
        let mut cursor = Cursor::new(self.input.as_slice());
        let mut vu_overview: Option<VuOverviewBlockGen2V2> = None;
        let mut vu_activities: Vec<VuActivitiesBlockGen2V2> = Vec::new();
        let mut vu_events_and_faults: Vec<VuEventsAndFaultsBlockGen2> = Vec::new();
        let mut vu_company_locks: Vec<VuCompanyLocksGen2V2> = Vec::new();
        let ghost mut k: nat = 0;
        loop
            invariant_except_break
                cursor.pos() == vu_entry_pos(3, d, k),
                2 * k <= cursor.pos(),
            invariant
                cursor.data() == d,
                d == self.bytes(),
                vu_count(3, d) == vu_count_from(3, d, k, (d.len() + 1 - k) as nat),
                vu_count(3, d) >= k,
                vu_prefix_ok(3, d, k),
                vu_last_block_at::<VuOverviewBlockGen2V2>(d, vu_entries_with(3, d, k, 0x31), vu_overview),
                vu_blocks_at::<VuActivitiesBlockGen2V2>(d, vu_entries_with(3, d, k, 0x32), vu_activities@),
                vu_blocks_at::<VuEventsAndFaultsBlockGen2>(d, vu_entries_with(3, d, k, 0x33), vu_events_and_faults@),
                vu_blocks_at::<VuCompanyLocksGen2V2>(d, vu_entries_with(3, d, k, 0x35), vu_company_locks@),
            ensures
                vu_count(3, d) == k,
                vu_prefix_ok(3, d, k),
                vu_entry_pos(3, d, k) >= d.len() || bytes_ok(d, vu_entry_pos(3, d, k), 2),
                vu_last_block_at::<VuOverviewBlockGen2V2>(d, vu_entries_with(3, d, k, 0x31), vu_overview),
                vu_blocks_at::<VuActivitiesBlockGen2V2>(d, vu_entries_with(3, d, k, 0x32), vu_activities@),
                vu_blocks_at::<VuEventsAndFaultsBlockGen2>(d, vu_entries_with(3, d, k, 0x33), vu_events_and_faults@),
                vu_blocks_at::<VuCompanyLocksGen2V2>(d, vu_entries_with(3, d, k, 0x35), vu_company_locks@),
            decreases vu_count(3, d) - k,
        {
            if !cursor.has_remaining() {
                break;
            }
            let ghost q = cursor.pos();
            proof {
                lemma_vu_count_ge(3, d, k + 1, (d.len() - k) as nat);
            }
            let sid = cursor.read_u8()?;
            let trep = match cursor.read_u8() {
                Ok(t) => t,
                Err(e) => {
                    proof {
                        lemma_vu_err_upto_none(3, d, k);
                    }
                    return Err(e);
                },
            };
            if sid == 0x76 && trep == 0x31 {
                proof {
                    lemma_vu_prefix_mono(3, d, k + 1, vu_count(3, d));
                }
                let block = match VuOverviewBlockGen2V2::parse(&mut cursor) {
                    Ok(b) => b,
                    Err(e) => {
                        proof {
                            lemma_vu_block_fails(3, d, k);
                        }
                        return Err(e);
                    },
                };
                vu_overview = Some(block);
            } else if sid == 0x76 && trep == 0x32 {
                proof {
                    lemma_vu_prefix_mono(3, d, k + 1, vu_count(3, d));
                }
                let ghost before = vu_activities@;
                let block = match VuActivitiesBlockGen2V2::parse(&mut cursor) {
                    Ok(b) => b,
                    Err(e) => {
                        proof {
                            lemma_vu_block_fails(3, d, k);
                        }
                        return Err(e);
                    },
                };
                vu_activities.push(block);
                proof {
                    let ps = vu_entries_with(3, d, k + 1, 0x32);
                    assert(ps == vu_entries_with(3, d, k, 0x32).push(q));
                    assert forall|i: int| 0 <= i < vu_activities@.len() implies #[trigger] VuActivitiesBlockGen2V2::parsed_as(d, ps[i] + 2, vu_activities@[i]) by {
                        if i < before.len() {
                            assert(vu_activities@[i] == before[i]);
                        }
                    }
                }
            } else if sid == 0x76 && trep == 0x33 {
                proof {
                    lemma_vu_prefix_mono(3, d, k + 1, vu_count(3, d));
                }
                let ghost before = vu_events_and_faults@;
                let block = match VuEventsAndFaultsBlockGen2::parse(&mut cursor) {
                    Ok(b) => b,
                    Err(e) => {
                        proof {
                            lemma_vu_block_fails(3, d, k);
                        }
                        return Err(e);
                    },
                };
                vu_events_and_faults.push(block);
                proof {
                    let ps = vu_entries_with(3, d, k + 1, 0x33);
                    assert(ps == vu_entries_with(3, d, k, 0x33).push(q));
                    assert forall|i: int| 0 <= i < vu_events_and_faults@.len() implies #[trigger] VuEventsAndFaultsBlockGen2::parsed_as(d, ps[i] + 2, vu_events_and_faults@[i]) by {
                        if i < before.len() {
                            assert(vu_events_and_faults@[i] == before[i]);
                        }
                    }
                }
            } else if sid == 0x76 && trep == 0x35 {
                proof {
                    lemma_vu_prefix_mono(3, d, k + 1, vu_count(3, d));
                }
                let ghost before = vu_company_locks@;
                let block = match VuCompanyLocksGen2V2::parse(&mut cursor) {
                    Ok(b) => b,
                    Err(e) => {
                        proof {
                            lemma_vu_block_fails(3, d, k);
                        }
                        return Err(e);
                    },
                };
                vu_company_locks.push(block);
                proof {
                    let ps = vu_entries_with(3, d, k + 1, 0x35);
                    assert(ps == vu_entries_with(3, d, k, 0x35).push(q));
                    assert forall|i: int| 0 <= i < vu_company_locks@.len() implies #[trigger] VuCompanyLocksGen2V2::parsed_as(d, ps[i] + 2, vu_company_locks@[i]) by {
                        if i < before.len() {
                            assert(vu_company_locks@[i] == before[i]);
                        }
                    }
                }
            } else {
                break;
            }
            proof {
                k = k + 1;
            }
        }
        proof {
            lemma_vu_prefix_mono(3, d, k, vu_count(3, d));
            lemma_vu_err_upto_none(3, d, k);
        }
        let vu_overview = match vu_overview {
            Some(b) => b,
            None => return Err(ParseError::MissingBlock),
        };
        Ok(VuData::Gen2V2(VuGen2V2Blocks { vu_overview, vu_activities, vu_events_and_faults, vu_company_locks }))
    }

}

} // verus!
