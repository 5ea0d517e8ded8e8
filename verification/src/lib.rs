//! Parser for digital tachograph files: driver cards and vehicle units of
//! generation 1, generation 2 and generation 2 version 2.
pub mod bytes;
pub mod card_files;
pub mod card_parser;
pub mod certs;
pub mod cursor;
pub mod detector;
pub mod dt;
pub mod laws;
pub mod layout_laws;
pub mod record_laws;
pub mod repeat;
pub mod sort;
pub mod table_laws;
pub mod text;
pub mod vu_files;
pub mod vu_parser;

use crate::card_parser::{
    card_count, card_data_as, card_entry_pos, card_last_entry, card_parse_err, card_parse_ok,
    card_present, lemma_card_entries_read, lemma_card_entry_after_first,
    lemma_card_last_entry_index, CardData, CardParser,
};
use crate::card_files::{full_card_as, full_card_err, full_card_ok};
use crate::cursor::ParseError;
use crate::vu_files::{vu_files_as, vu_files_err, vu_files_ok};
use crate::detector::{detected_type, has_header, header_at, TachoFileType};
use crate::vu_parser::{vu_data_as, vu_generation, vu_parse_err, vu_parse_ok, VuData, VuParser};
use vstd::prelude::*;

verus! {

/// What a tachograph file holds: the files of a driver card or the blocks of
/// a vehicle unit download.
#[derive(Debug)]
pub enum TachoData {
    Card { card_data: CardData },
    Vu { vu_data: VuData },
}

/// The kind `t` is a driver card.
pub open spec fn is_card_type(t: TachoFileType) -> bool {
    t == TachoFileType::DriverCardGen1 || t == TachoFileType::DriverCardGen2 || t
        == TachoFileType::DriverCardGen2V2
}

/// Reads a vehicle unit download of any generation.
pub fn parse_vu_from_bytes(bytes: &[u8]) -> (res: Result<VuData, ParseError>)
    requires
        bytes@.len() >= 2,
    ensures
        vu_read(bytes@, res),
{
    let parser = VuParser::new_from_bytes(bytes)?;
    parser.parse()
}

/// Reads a driver card file.
pub fn parse_card_from_bytes(bytes: &[u8]) -> (res: Result<CardData, ParseError>)
    ensures
        card_read(bytes@, res),
{
    let parser = CardParser::new_from_bytes(bytes)?;
    parser.parse()
}

/// `r` is what the card reader gives for the card file `d`: success exactly
/// when the file reads, its files on success, `card_parse_err` on failure.
pub open spec fn card_read(d: Seq<u8>, r: Result<CardData, ParseError>) -> bool {
    &&& r is Ok <==> card_parse_ok(d)
    &&& r matches Ok(v) ==> card_data_as(d, v)
    &&& r matches Err(e) ==> e == card_parse_err(d)
}

/// `r` is what the vehicle unit reader gives for the download `d`.
pub open spec fn vu_read(d: Seq<u8>, r: Result<VuData, ParseError>) -> bool {
    &&& r is Ok <==> vu_parse_ok(d)
    &&& r matches Ok(v) ==> vu_data_as(d, v)
    &&& r matches Err(e) ==> e == vu_parse_err(d)
}

/// A result of reading a file of any kind as a result of the card reader:
/// its card files or its error; `None` for vehicle unit data.
pub open spec fn as_card_result(r: Result<TachoData, ParseError>) -> Option<Result<CardData, ParseError>> {
    match r {
        Ok(TachoData::Card { card_data }) => Some(Ok(card_data)),
        Ok(TachoData::Vu { .. }) => None,
        Err(e) => Some(Err(e)),
    }
}

/// A result of reading a file of any kind as a result of the vehicle unit
/// reader: its blocks or its error; `None` for card data.
pub open spec fn as_vu_result(r: Result<TachoData, ParseError>) -> Option<Result<VuData, ParseError>> {
    match r {
        Ok(TachoData::Vu { vu_data }) => Some(Ok(vu_data)),
        Ok(TachoData::Card { .. }) => None,
        Err(e) => Some(Err(e)),
    }
}

/// `r` is what reading the file `d` of the detected kind gives: what the card
/// reader gives for a driver card, what the vehicle unit reader gives for a
/// download.
pub open spec fn tacho_read(d: Seq<u8>, r: Result<TachoData, ParseError>) -> bool {
    if is_card_type(detected_type(d)->0) {
        as_card_result(r) matches Some(c) && card_read(d, c)
    } else {
        as_vu_result(r) matches Some(v) && vu_read(d, v)
    }
}

/// Reads a tachograph file of the kind that its first bytes name.
pub fn parse_from_bytes(bytes: &[u8]) -> (res: Result<TachoData, ParseError>)
    requires
        detected_type(bytes@) is Some,
    ensures
        tacho_read(bytes@, res),
{
    let detected = crate::detector::detect_from_bytes(bytes);
    match detected {
        Ok(TachoFileType::DriverCardGen1) | Ok(TachoFileType::DriverCardGen2) | Ok(
            TachoFileType::DriverCardGen2V2,
        ) => {
            let card_data = parse_card_from_bytes(bytes)?;
            Ok(TachoData::Card { card_data })
        },
        Ok(_) => {
            let vu_data = parse_vu_from_bytes(bytes)?;
            Ok(TachoData::Vu { vu_data })
        },
        Err(e) => Err(e),
    }
}

/// Reads a vehicle unit download whose first header names its overview
/// block: generation 1 as `parse_vu_from_bytes` reads it, generation 2
/// passing over headers that name no block of the generation, generation 2
/// version 2 keeping only its overview.
pub fn process_vu_bytes(bytes: &[u8]) -> (res: Result<crate::vu_files::VuData, ParseError>)
    requires
        bytes@.len() >= 2,
    ensures
        res is Ok <==> vu_files_ok(bytes@),
        res matches Ok(v) ==> vu_files_as(bytes@, v),
        res matches Err(e) ==> e == vu_files_err(bytes@),
{
    let parser = crate::vu_files::VuParser::new_from_bytes(bytes)?;
    parser.parse()
}

/// Reads a driver card file that must hold every file of both generations:
/// a file named again replaces the one read before, and a missing file of
/// either generation is an error.
pub fn process_driver_card_bytes(bytes: &[u8]) -> (res: Result<crate::card_files::CardData, ParseError>)
    ensures
        res is Ok <==> full_card_ok(bytes@),
        res matches Ok(v) ==> full_card_as(bytes@, v),
        res matches Err(e) ==> e == full_card_err(bytes@),
{
    let parser = crate::card_files::CardParser::new_from_bytes(bytes)?;
    parser.parse()
}

/// The kind of vehicle unit file that the detector names is the generation
/// in which the vehicle unit parser reads it, and the other way round.
pub proof fn lemma_detected_vu_generation(d: Seq<u8>)
    ensures
        detected_type(d) == Some(TachoFileType::VehicleUnitGen1) <==> vu_generation(d) == 1,
        detected_type(d) == Some(TachoFileType::VehicleUnitGen2) <==> vu_generation(d) == 2,
        detected_type(d) == Some(TachoFileType::VehicleUnitGen2V2) <==> vu_generation(d) == 3,
{
}

/// The application identification of type `f` among the entries of a card
/// file that starts with the card's identification (0x00 0x02) stands, with
/// its header, at a position from 3 on.
proof fn lemma_card_file_header(d: Seq<u8>, f: u8)
    requires
        d.len() >= 2,
        d[0] == 0x00,
        d[1] == 0x02,
        card_present(d, 0x0501, f as int),
    ensures
        has_header(d, seq![0x05u8, 0x01u8, f]),
{
    let k = card_count(d);
    let j = lemma_card_last_entry_index(d, k, 0x0501, f as int);
    let q = card_entry_pos(d, j);
    lemma_card_entries_read(d, j);
    if j == 0 {
        assert(q == 0);
        assert(false);
    }
    lemma_card_entry_after_first(d, j);
    assert(d.subrange(q, q + 3) =~= seq![0x05u8, 0x01u8, f]);
    assert(header_at(d, q, seq![0x05u8, 0x01u8, f]));
}

/// A driver card file that starts with the card's identification (0x00 0x02)
/// and that the card parser reads is detected as a driver card, and as one of
/// generation 2 (or its version 2) when it holds the files of generation 2;
/// so a card detected as of generation 1 is read as one.
pub proof fn lemma_read_card_is_detected(d: Seq<u8>)
    requires
        d.len() >= 2,
        d[0] == 0x00,
        d[1] == 0x02,
        card_parse_ok(d),
    ensures
        detected_type(d) is Some,
        is_card_type(detected_type(d)->0),
        card_present(d, 0x0002, 2) ==> detected_type(d) == Some(TachoFileType::DriverCardGen2)
            || detected_type(d) == Some(TachoFileType::DriverCardGen2V2),
{
    lemma_card_file_header(d, 0);
    if card_present(d, 0x0002, 2) {
        lemma_card_file_header(d, 2);
    }
}

/// Reading a file of any kind gives what the reader of its kind gives: for a
/// detected driver card, `parse_from_bytes` and `parse_card_from_bytes`
/// succeed or fail together, fail with the same error, and on success give
/// card data of the same generation holding, for each file, the block of the
/// same entry; likewise for a vehicle unit download and
/// `parse_vu_from_bytes`.
pub proof fn lemma_parse_from_bytes_is_the_reader_of_its_kind(
    d: Seq<u8>,
    r: Result<TachoData, ParseError>,
    c: Result<CardData, ParseError>,
    v: Result<VuData, ParseError>,
)
    requires
        detected_type(d) is Some,
        tacho_read(d, r),
        card_read(d, c),
        vu_read(d, v),
    ensures
        is_card_type(detected_type(d)->0) ==> {
            &&& (r is Ok <==> c is Ok)
            &&& (r matches Err(e) ==> c == Err::<CardData, ParseError>(e))
            &&& (r matches Ok(x) ==> x matches TachoData::Card { card_data } && card_data_as(d, card_data)
                && (c matches Ok(y) && card_data_as(d, y) && (card_data is Gen1 <==> y is Gen1)
                && (card_data is Gen2 <==> y is Gen2)))
        },
        !is_card_type(detected_type(d)->0) ==> {
            &&& (r is Ok <==> v is Ok)
            &&& (r matches Err(e) ==> v == Err::<VuData, ParseError>(e))
            &&& (r matches Ok(x) ==> x matches TachoData::Vu { vu_data } && vu_data_as(d, vu_data)
                && (v matches Ok(y) && vu_data_as(d, y) && (vu_data is Gen1 <==> y is Gen1)
                && (vu_data is Gen2 <==> y is Gen2) && (vu_data is Gen2V2 <==> y is Gen2V2)))
        },
{
}

/// A generation 1 download whose first block is its overview is read by
/// `process_vu_bytes` as by `parse_vu_from_bytes`: both succeed or fail
/// together, with the same error, and describe the same blocks.
pub proof fn lemma_processing_gen1_is_reading(d: Seq<u8>, r: Result<crate::vu_files::VuData, ParseError>, v: Result<VuData, ParseError>)
    requires
        d.len() >= 2,
        d[0] == 0x76,
        d[1] == 0x01,
        r is Ok <==> vu_files_ok(d),
        r matches Ok(x) ==> vu_files_as(d, x),
        r matches Err(e) ==> e == vu_files_err(d),
        vu_read(d, v),
    ensures
        r is Ok <==> v is Ok,
        r matches Err(e) ==> v == Err::<VuData, ParseError>(e),
        r matches Ok(x) ==> (x matches crate::vu_files::VuData::VuGen1Blocks(b) && v matches Ok(y)
            && y matches VuData::Gen1(c) && crate::vu_parser::vu_gen1_as(d, b)
            && crate::vu_parser::vu_gen1_as(d, c)),
{
}

} // verus!
