//! Reading a vehicle unit download whose first block is its overview, as
//! `process_vu_bytes` reads it: a generation 1
//! download is read as by the vehicle unit parser; in a generation 2
//! download a header that names no block of the generation is passed over;
//! of a generation 2 version 2 download only the overview blocks are read,
//! up to the first other header.
use crate::cursor::{bytes_ok, Cursor, Parse, ParseError};
use crate::dt::gen2::{
    VuActivitiesBlockGen2, VuCompanyLocksBlockGen2, VuEventsAndFaultsBlockGen2,
    VuOverviewBlockGen2, VuSpeedBlockGen2,
};
use crate::dt::gen2v2::VuOverviewBlockGen2V2;
use crate::vu_parser::{
    vu_block_end, vu_block_err, vu_block_ok, vu_blocks_at, vu_gen1_as, vu_gen_err, vu_gen_ok,
    vu_last_block_at, VuGen1Blocks, VuGen2Blocks,
};
use vstd::prelude::*;
use vstd::slice::slice_to_vec;

verus! {

/// The blocks that reading mode `m` knows: those of generation 2 for mode 2,
/// the overview of version 2 for mode 3.
pub open spec fn full_known(m: int, t: u8) -> bool {
    if m == 2 {
        0x21 <= t <= 0x25
    } else {
        t == 0x31
    }
}

/// The header at `q` introduces a block that mode `m` reads.
pub open spec fn full_entry_read(m: int, d: Seq<u8>, q: int) -> bool {
    0 <= q && bytes_ok(d, q, 2) && d[q] == 0x76 && full_known(m, d[q + 1])
}

/// Where the header after the one at `q` stands: after the block it
/// introduces, or right after a header that mode `m` passes over.
pub open spec fn full_step(m: int, d: Seq<u8>, q: int) -> int {
    if full_entry_read(m, d, q) {
        vu_block_end(m, d, q)
    } else {
        q + 2
    }
}

/// Where header `k` stands.
pub open spec fn full_pos(m: int, d: Seq<u8>, k: nat) -> int
    decreases k,
{
    if k == 0 {
        0
    } else {
        full_step(m, d, full_pos(m, d, (k - 1) as nat))
    }
}

/// The reader goes on at `q`: in mode 2 while a whole header is there, in
/// mode 3 while the header names the overview.
pub open spec fn full_go(m: int, d: Seq<u8>, q: int) -> bool {
    if m == 2 {
        0 <= q && bytes_ok(d, q, 2)
    } else {
        full_entry_read(m, d, q)
    }
}

/// The number of headers read from header `k` on, `fuel` bounding the count.
pub open spec fn full_count_from(m: int, d: Seq<u8>, k: nat, fuel: nat) -> nat
    decreases fuel,
{
    if fuel > 0 && full_go(m, d, full_pos(m, d, k)) {
        full_count_from(m, d, k + 1, (fuel - 1) as nat)
    } else {
        k
    }
}

/// The number of headers read. Each takes at least two bytes, so the bound
/// never stops the count early.
pub open spec fn full_count(m: int, d: Seq<u8>) -> nat {
    full_count_from(m, d, 0, (d.len() + 1) as nat)
}

/// The blocks that the first `k` headers introduce read.
pub open spec fn full_prefix_ok(m: int, d: Seq<u8>, k: nat) -> bool
    decreases k,
{
    k == 0 || (full_prefix_ok(m, d, (k - 1) as nat) && (full_entry_read(m, d, full_pos(m, d, (k - 1) as nat))
        ==> vu_block_ok(m, d, full_pos(m, d, (k - 1) as nat))))
}

/// The header positions, among the first `k`, of the blocks of type `t`.
pub open spec fn full_entries_with(m: int, d: Seq<u8>, k: nat, t: u8) -> Seq<int>
    decreases k,
{
    if k == 0 {
        Seq::empty()
    } else {
        let prev = full_entries_with(m, d, (k - 1) as nat, t);
        let q = full_pos(m, d, (k - 1) as nat);
        if full_entry_read(m, d, q) && d[q + 1] == t {
            prev.push(q)
        } else {
            prev
        }
    }
}

/// The error of the first block among the first `k` headers that does not read, if any.
pub open spec fn full_err_upto(m: int, d: Seq<u8>, k: nat) -> Option<ParseError>
    decreases k,
{
    if k == 0 {
        None
    } else {
        match full_err_upto(m, d, (k - 1) as nat) {
            Some(e) => Some(e),
            None => {
                let q = full_pos(m, d, (k - 1) as nat);
                if !full_entry_read(m, d, q) || vu_block_ok(m, d, q) {
                    None
                } else {
                    Some(vu_block_err(m, d, q))
                }
            },
        }
    }
}

/// A download read in mode `m` reads: every block read reads, the data does
/// not stop inside a header, and an overview block is there.
pub open spec fn full_gen_ok(m: int, d: Seq<u8>, overview: u8) -> bool {
    let k = full_count(m, d);
    let s = full_pos(m, d, k);
    &&& full_prefix_ok(m, d, k)
    &&& (s >= d.len() || bytes_ok(d, s, 2))
    &&& full_entries_with(m, d, k, overview).len() > 0
}

/// The error of a download read in mode `m` that does not read: that of
/// the first block that does not read; else `UnexpectedEnd` where the data
/// stops inside a header; else `MissingBlock`, for the missing overview.
pub open spec fn full_gen_err(m: int, d: Seq<u8>) -> ParseError {
    let k = full_count(m, d);
    let s = full_pos(m, d, k);
    match full_err_upto(m, d, k) {
        Some(e) => e,
        None => if !(s >= d.len() || bytes_ok(d, s, 2)) {
            ParseError::UnexpectedEnd
        } else {
            ParseError::MissingBlock
        },
    }
}

proof fn lemma_full_count_ge(m: int, d: Seq<u8>, k: nat, fuel: nat)
    ensures
        full_count_from(m, d, k, fuel) >= k,
    decreases fuel,
{
    if fuel > 0 && full_go(m, d, full_pos(m, d, k)) {
        lemma_full_count_ge(m, d, k + 1, (fuel - 1) as nat);
    }
}

proof fn lemma_full_prefix_mono(m: int, d: Seq<u8>, k: nat, n: nat)
    requires
        k <= n,
    ensures
        full_prefix_ok(m, d, n) ==> full_prefix_ok(m, d, k),
    decreases n,
{
    if k < n {
        lemma_full_prefix_mono(m, d, k, (n - 1) as nat);
    }
}

proof fn lemma_full_err_upto_none(m: int, d: Seq<u8>, k: nat)
    ensures
        full_err_upto(m, d, k) is None <==> full_prefix_ok(m, d, k),
    decreases k,
{
    if k > 0 {
        lemma_full_err_upto_none(m, d, (k - 1) as nat);
    }
}

proof fn lemma_full_err_upto_stays(m: int, d: Seq<u8>, k: nat, n: nat)
    requires
        k <= n,
        full_err_upto(m, d, k) is Some,
    ensures
        full_err_upto(m, d, n) == full_err_upto(m, d, k),
    decreases n,
{
    if k < n {
        lemma_full_err_upto_stays(m, d, k, (n - 1) as nat);
    }
}

/// When the first `k` blocks read and block `k`, one that is read, does
/// not, its error is the error of the download.
proof fn lemma_full_block_fails(m: int, d: Seq<u8>, k: nat)
    requires
        full_prefix_ok(m, d, k),
        k < full_count(m, d),
        full_entry_read(m, d, full_pos(m, d, k)),
        !vu_block_ok(m, d, full_pos(m, d, k)),
    ensures
        full_gen_err(m, d) == vu_block_err(m, d, full_pos(m, d, k)),
{
    lemma_full_err_upto_none(m, d, k);
    lemma_full_err_upto_stays(m, d, k + 1, full_count(m, d));
}

/// The overview of a generation 2 version 2 download.
#[derive(Debug)]
pub struct VuGen2V2Blocks {
    pub vu_overview: VuOverviewBlockGen2V2,
}

/// The blocks of a vehicle unit download, by the generation its first block names.
#[derive(Debug)]
pub enum VuData {
    VuGen1Blocks(VuGen1Blocks),
    VuGen2Blocks(VuGen2Blocks),
    VuGen2V2Blocks(VuGen2V2Blocks),
}

/// `b` holds the blocks of the generation 2 download `d`, headers naming no
/// block of the generation passed over: the last overview and every other
/// block, in order.
pub open spec fn full_gen2_as(d: Seq<u8>, b: VuGen2Blocks) -> bool {
    let k = full_count(2, d);
    vu_last_block_at::<VuOverviewBlockGen2>(d, full_entries_with(2, d, k, 0x21), Some(b.vu_overview))
        && vu_blocks_at::<VuActivitiesBlockGen2>(d, full_entries_with(2, d, k, 0x22), b.vu_activities@)
        && vu_blocks_at::<VuEventsAndFaultsBlockGen2>(d, full_entries_with(2, d, k, 0x23), b.vu_events_and_faults@)
        && vu_blocks_at::<VuSpeedBlockGen2>(d, full_entries_with(2, d, k, 0x24), b.vu_detailed_speed@)
        && vu_blocks_at::<VuCompanyLocksBlockGen2>(d, full_entries_with(2, d, k, 0x25), b.vu_company_locks@)
}

/// `b` holds the last overview block of the version 2 download `d`.
pub open spec fn full_gen2v2_as(d: Seq<u8>, b: VuGen2V2Blocks) -> bool {
    let k = full_count(3, d);
    vu_last_block_at::<VuOverviewBlockGen2V2>(d, full_entries_with(3, d, k, 0x31), Some(b.vu_overview))
}

/// The download starts with the header `0x76 t`.
pub open spec fn starts_with(d: Seq<u8>, t: u8) -> bool {
    d.len() >= 2 && d[0] == 0x76 && d[1] == t
}

/// The download `d` reads.
pub open spec fn vu_files_ok(d: Seq<u8>) -> bool {
    if starts_with(d, 0x01) {
        vu_gen_ok(1, d, 0x01)
    } else if starts_with(d, 0x21) {
        full_gen_ok(2, d, 0x21)
    } else if starts_with(d, 0x31) {
        full_gen_ok(3, d, 0x31)
    } else {
        false
    }
}

/// `v` holds the blocks of the download `d`.
pub open spec fn vu_files_as(d: Seq<u8>, v: VuData) -> bool {
    match v {
        VuData::VuGen1Blocks(b) => starts_with(d, 0x01) && vu_gen1_as(d, b),
        VuData::VuGen2Blocks(b) => starts_with(d, 0x21) && full_gen2_as(d, b),
        VuData::VuGen2V2Blocks(b) => starts_with(d, 0x31) && full_gen2v2_as(d, b),
    }
}

/// The error of a download that does not read; `UnsupportedFileType` where
/// its first header is no overview.
pub open spec fn vu_files_err(d: Seq<u8>) -> ParseError {
    if starts_with(d, 0x01) {
        vu_gen_err(1, d)
    } else if starts_with(d, 0x21) {
        full_gen_err(2, d)
    } else if starts_with(d, 0x31) {
        full_gen_err(3, d)
    } else {
        ParseError::UnsupportedFileType
    }
}

/// A parser of vehicle unit downloads that start with their overview, holding the downloaded bytes.
pub struct VuParser {
    input: Vec<u8>,
}

impl VuParser {
    /// The downloaded bytes.
    pub closed spec fn bytes(self) -> Seq<u8> {
        self.input@
    }

    /// A parser of `bytes`.
    pub fn new_from_bytes(bytes: &[u8]) -> (res: Result<VuParser, ParseError>)
        ensures
            res matches Ok(p) && p.bytes() == bytes@,
    {
        Ok(VuParser { input: slice_to_vec(bytes) })
    }

    /// Reads the download in the generation that its first header names.
    pub fn parse(&self) -> (res: Result<VuData, ParseError>)
        requires
            self.bytes().len() >= 2,
        ensures
            res is Ok <==> vu_files_ok(self.bytes()),
            res matches Ok(v) ==> vu_files_as(self.bytes(), v),
            res matches Err(e) ==> e == vu_files_err(self.bytes()),
    {
        let trep = self.input[0];
        let sid = self.input[1];
        if trep == 0x76 && sid == 0x01 {
            let inner = crate::vu_parser::VuParser::new_from_bytes(self.input.as_slice())?;
            match inner.parse()? {
                crate::vu_parser::VuData::Gen1(b) => Ok(VuData::VuGen1Blocks(b)),
                _ => Err(ParseError::UnsupportedFileType),
            }
        } else if trep == 0x76 && sid == 0x21 {
            self.parse_gen2()
        } else if trep == 0x76 && sid == 0x31 {
            self.parse_gen2v2()
        } else {
            Err(ParseError::UnsupportedFileType)
        }
    }

    /// Reads the blocks of a generation 2 download, passing over headers that name no block of the generation.
    fn parse_gen2(&self) -> (res: Result<VuData, ParseError>)
        ensures
            res is Ok <==> full_gen_ok(2, self.bytes(), 0x21),
            res matches Ok(v) ==> v matches VuData::VuGen2Blocks(b) && full_gen2_as(self.bytes(), b),
            res matches Err(e) ==> e == full_gen_err(2, self.bytes()),
    {
        let ghost d = self.bytes();
        let mut cursor = Cursor::new(self.input.as_slice());
        let mut vu_overview: Option<VuOverviewBlockGen2> = None;
        let mut vu_activities: Vec<VuActivitiesBlockGen2> = Vec::new();
        let mut vu_events_and_faults: Vec<VuEventsAndFaultsBlockGen2> = Vec::new();
        let mut vu_detailed_speed: Vec<VuSpeedBlockGen2> = Vec::new();
        let mut vu_company_locks: Vec<VuCompanyLocksBlockGen2> = Vec::new();
        let ghost mut k: nat = 0;
        loop
            invariant_except_break
                cursor.pos() == full_pos(2, d, k),
                2 * k <= cursor.pos(),
            invariant
                cursor.data() == d,
                d == self.bytes(),
                full_count(2, d) == full_count_from(2, d, k, (d.len() + 1 - k) as nat),
                full_count(2, d) >= k,
                full_prefix_ok(2, d, k),
                vu_last_block_at::<VuOverviewBlockGen2>(d, full_entries_with(2, d, k, 0x21), vu_overview),
                vu_blocks_at::<VuActivitiesBlockGen2>(d, full_entries_with(2, d, k, 0x22), vu_activities@),
                vu_blocks_at::<VuEventsAndFaultsBlockGen2>(d, full_entries_with(2, d, k, 0x23), vu_events_and_faults@),
                vu_blocks_at::<VuSpeedBlockGen2>(d, full_entries_with(2, d, k, 0x24), vu_detailed_speed@),
                vu_blocks_at::<VuCompanyLocksBlockGen2>(d, full_entries_with(2, d, k, 0x25), vu_company_locks@),
            ensures
                full_count(2, d) == k,
                full_prefix_ok(2, d, k),
                full_pos(2, d, k) >= d.len() || bytes_ok(d, full_pos(2, d, k), 2),
                vu_last_block_at::<VuOverviewBlockGen2>(d, full_entries_with(2, d, k, 0x21), vu_overview),
                vu_blocks_at::<VuActivitiesBlockGen2>(d, full_entries_with(2, d, k, 0x22), vu_activities@),
                vu_blocks_at::<VuEventsAndFaultsBlockGen2>(d, full_entries_with(2, d, k, 0x23), vu_events_and_faults@),
                vu_blocks_at::<VuSpeedBlockGen2>(d, full_entries_with(2, d, k, 0x24), vu_detailed_speed@),
                vu_blocks_at::<VuCompanyLocksBlockGen2>(d, full_entries_with(2, d, k, 0x25), vu_company_locks@),
            decreases full_count(2, d) - k,
        {
            if !cursor.has_remaining() {
                break;
            }
            let ghost q = cursor.pos();
            proof {
                lemma_full_count_ge(2, d, k + 1, (d.len() - k) as nat);
            }
            let sid = cursor.read_u8()?;
            let trep = match cursor.read_u8() {
                Ok(t) => t,
                Err(e) => {
                    proof {
                        lemma_full_err_upto_none(2, d, k);
                    }
                    return Err(e);
                },
            };
            if sid == 0x76 && trep == 0x21 {
                proof {
                    lemma_full_prefix_mono(2, d, k + 1, full_count(2, d));
                }
                let block = match VuOverviewBlockGen2::parse(&mut cursor) {
                    Ok(b) => b,
                    Err(e) => {
                        proof {
                            lemma_full_block_fails(2, d, k);
                        }
                        return Err(e);
                    },
                };
                vu_overview = Some(block);
            } else if sid == 0x76 && trep == 0x22 {
                proof {
                    lemma_full_prefix_mono(2, d, k + 1, full_count(2, d));
                }
                let ghost before = vu_activities@;
                let block = match VuActivitiesBlockGen2::parse(&mut cursor) {
                    Ok(b) => b,
                    Err(e) => {
                        proof {
                            lemma_full_block_fails(2, d, k);
                        }
                        return Err(e);
                    },
                };
                vu_activities.push(block);
                proof {
                    let ps = full_entries_with(2, d, k + 1, 0x22);
                    assert(ps == full_entries_with(2, d, k, 0x22).push(q));
                    assert forall|i: int| 0 <= i < vu_activities@.len() implies #[trigger] VuActivitiesBlockGen2::parsed_as(d, ps[i] + 2, vu_activities@[i]) by {
                        if i < before.len() {
                            assert(vu_activities@[i] == before[i]);
                        }
                    }
                }
            } else if sid == 0x76 && trep == 0x23 {
                proof {
                    lemma_full_prefix_mono(2, d, k + 1, full_count(2, d));
                }
                let ghost before = vu_events_and_faults@;
                let block = match VuEventsAndFaultsBlockGen2::parse(&mut cursor) {
                    Ok(b) => b,
                    Err(e) => {
                        proof {
                            lemma_full_block_fails(2, d, k);
                        }
                        return Err(e);
                    },
                };
                vu_events_and_faults.push(block);
                proof {
                    let ps = full_entries_with(2, d, k + 1, 0x23);
                    assert(ps == full_entries_with(2, d, k, 0x23).push(q));
                    assert forall|i: int| 0 <= i < vu_events_and_faults@.len() implies #[trigger] VuEventsAndFaultsBlockGen2::parsed_as(d, ps[i] + 2, vu_events_and_faults@[i]) by {
                        if i < before.len() {
                            assert(vu_events_and_faults@[i] == before[i]);
                        }
                    }
                }
            } else if sid == 0x76 && trep == 0x24 {
                proof {
                    lemma_full_prefix_mono(2, d, k + 1, full_count(2, d));
                }
                let ghost before = vu_detailed_speed@;
                let block = match VuSpeedBlockGen2::parse(&mut cursor) {
                    Ok(b) => b,
                    Err(e) => {
                        proof {
                            lemma_full_block_fails(2, d, k);
                        }
                        return Err(e);
                    },
                };
                vu_detailed_speed.push(block);
                proof {
                    let ps = full_entries_with(2, d, k + 1, 0x24);
                    assert(ps == full_entries_with(2, d, k, 0x24).push(q));
                    assert forall|i: int| 0 <= i < vu_detailed_speed@.len() implies #[trigger] VuSpeedBlockGen2::parsed_as(d, ps[i] + 2, vu_detailed_speed@[i]) by {
                        if i < before.len() {
                            assert(vu_detailed_speed@[i] == before[i]);
                        }
                    }
                }
            } else if sid == 0x76 && trep == 0x25 {
                proof {
                    lemma_full_prefix_mono(2, d, k + 1, full_count(2, d));
                }
                let ghost before = vu_company_locks@;
                let block = match VuCompanyLocksBlockGen2::parse(&mut cursor) {
                    Ok(b) => b,
                    Err(e) => {
                        proof {
                            lemma_full_block_fails(2, d, k);
                        }
                        return Err(e);
                    },
                };
                vu_company_locks.push(block);
                proof {
                    let ps = full_entries_with(2, d, k + 1, 0x25);
                    assert(ps == full_entries_with(2, d, k, 0x25).push(q));
                    assert forall|i: int| 0 <= i < vu_company_locks@.len() implies #[trigger] VuCompanyLocksBlockGen2::parsed_as(d, ps[i] + 2, vu_company_locks@[i]) by {
                        if i < before.len() {
                            assert(vu_company_locks@[i] == before[i]);
                        }
                    }
                }
            } else {
                proof {
                    lemma_full_prefix_mono(2, d, k + 1, full_count(2, d));
                }
            }
            proof {
                k = k + 1;
            }
        }
        proof {
            lemma_full_prefix_mono(2, d, k, full_count(2, d));
            lemma_full_err_upto_none(2, d, k);
        }
        let vu_overview = match vu_overview {
            Some(b) => b,
            None => return Err(ParseError::MissingBlock),
        };
        Ok(VuData::VuGen2Blocks(VuGen2Blocks { vu_overview, vu_activities, vu_events_and_faults, vu_detailed_speed, vu_company_locks }))
    }

    /// Reads the blocks of a generation 2 version 2 download, up to the first header that names no overview.
    fn parse_gen2v2(&self) -> (res: Result<VuData, ParseError>)
        ensures
            res is Ok <==> full_gen_ok(3, self.bytes(), 0x31),
            res matches Ok(v) ==> v matches VuData::VuGen2V2Blocks(b) && full_gen2v2_as(self.bytes(), b),
            res matches Err(e) ==> e == full_gen_err(3, self.bytes()),
    {
        let ghost d = self.bytes();
        let mut cursor = Cursor::new(self.input.as_slice());
        let mut vu_overview: Option<VuOverviewBlockGen2V2> = None;
        let ghost mut k: nat = 0;
        loop
            invariant_except_break
                cursor.pos() == full_pos(3, d, k),
                2 * k <= cursor.pos(),
            invariant
                cursor.data() == d,
                d == self.bytes(),
                full_count(3, d) == full_count_from(3, d, k, (d.len() + 1 - k) as nat),
                full_count(3, d) >= k,
                full_prefix_ok(3, d, k),
                vu_last_block_at::<VuOverviewBlockGen2V2>(d, full_entries_with(3, d, k, 0x31), vu_overview),
            ensures
                full_count(3, d) == k,
                full_prefix_ok(3, d, k),
                full_pos(3, d, k) >= d.len() || bytes_ok(d, full_pos(3, d, k), 2),
                vu_last_block_at::<VuOverviewBlockGen2V2>(d, full_entries_with(3, d, k, 0x31), vu_overview),
            decreases full_count(3, d) - k,
        {
            if !cursor.has_remaining() {
                break;
            }
            let ghost q = cursor.pos();
            proof {
                lemma_full_count_ge(3, d, k + 1, (d.len() - k) as nat);
            }
            let sid = cursor.read_u8()?;
            let trep = match cursor.read_u8() {
                Ok(t) => t,
                Err(e) => {
                    proof {
                        lemma_full_err_upto_none(3, d, k);
                    }
                    return Err(e);
                },
            };
            if sid == 0x76 && trep == 0x31 {
                proof {
                    lemma_full_prefix_mono(3, d, k + 1, full_count(3, d));
                }
                let block = match VuOverviewBlockGen2V2::parse(&mut cursor) {
                    Ok(b) => b,
                    Err(e) => {
                        proof {
                            lemma_full_block_fails(3, d, k);
                        }
                        return Err(e);
                    },
                };
                vu_overview = Some(block);
            } else {
                break;
            }
            proof {
                k = k + 1;
            }
        }
        proof {
            lemma_full_prefix_mono(3, d, k, full_count(3, d));
            lemma_full_err_upto_none(3, d, k);
        }
        let vu_overview = match vu_overview {
            Some(b) => b,
            None => return Err(ParseError::MissingBlock),
        };
        Ok(VuData::VuGen2V2Blocks(VuGen2V2Blocks { vu_overview }))
    }

}

} // verus!
