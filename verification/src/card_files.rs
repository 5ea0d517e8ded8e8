//! Reading a driver card file that must hold every file of both
//! generations: the entries are read as by the card parser, a file named
//! again replaces the one read before, and each of the files of generation 1
//! and of generation 2, signatures included, must be among them.
use crate::card_parser::{
    card_count, card_entry_err, card_entry_ok, card_entry_pos, card_entry_read, card_last_entry,
    card_next, card_present, card_scan, card_tag_known, CardBlock,
};
use crate::cursor::{be16, bytes_ok, Cursor, Parse, ParseDyn, ParseError};
use crate::dt::gen1::{
    CardControlActivityDataRecord, CardEventData, CardFaultData, CardIccIdentification,
    CardPlaceDailyWorkPeriod, CardVehiclesUsed, Certificate, DriverCardApplicationIdentification,
    Signature, SpecificConditions,
};
use crate::dt::gen2::{
    CardControlActivityDataRecordGen2, CardEventDataGen2, CardFaultDataGen2,
    CardIccIdentificationGen2, CardPlaceDailyWorkPeriodGen2, CardVehicleUnitsUsedGen2,
    CardVehiclesUsedGen2, CertificateGen2, DriverCardApplicationIdentificationGen2,
    GNSSAccumulatedDrivingGen2, SignatureGen2, SpecificConditionsGen2,
};
use crate::dt::{
    CardChipIdentification, CardDownload, CardDrivingLicenceInformation, CurrentUsage,
    DriverActivityData, Identification,
};
use vstd::prelude::*;
use vstd::slice::slice_to_vec;

verus! {

/// `v` is the block, length included, of the last of the first `k` entries
/// that names file `s` of type `f`, if any.
pub open spec fn block_slot_as<T: Parse>(d: Seq<u8>, k: nat, s: int, f: int, v: Option<CardBlock<T>>) -> bool {
    match card_last_entry(d, k, s, f) {
        None => v is None,
        Some(q) => v matches Some(b) && b.size == be16(d, q + 3) && crate::card_parser::card_block_as::<T>(d, q + 3, b.data),
    }
}

/// Like `block_slot_as`, for files as long as their blocks.
pub open spec fn dyn_block_slot_as<T: ParseDyn>(d: Seq<u8>, k: nat, s: int, f: int, v: Option<CardBlock<T>>) -> bool {
    match card_last_entry(d, k, s, f) {
        None => v is None,
        Some(q) => v matches Some(b) && b.size == be16(d, q + 3) && crate::card_parser::dyn_card_block_as::<T>(d, q + 3, b.data),
    }
}

/// The first `k` entries read.
pub open spec fn entries_read(d: Seq<u8>, k: nat) -> bool
    decreases k,
{
    k == 0 || (entries_read(d, (k - 1) as nat) && card_entry_ok(d, card_entry_pos(d, (k - 1) as nat)))
}

/// The error of the first of the first `k` entries that does not read, if any.
pub open spec fn first_entry_err(d: Seq<u8>, k: nat) -> Option<ParseError>
    decreases k,
{
    if k == 0 {
        None
    } else {
        match first_entry_err(d, (k - 1) as nat) {
            Some(e) => Some(e),
            None => {
                let q = card_entry_pos(d, (k - 1) as nat);
                if card_entry_ok(d, q) {
                    None
                } else {
                    Some(card_entry_err(d, q))
                }
            },
        }
    }
}

/// Every file of both generations, signatures included, is among the entries.
pub open spec fn all_files_present(d: Seq<u8>) -> bool {
    card_present(d, 0x0002, 0)
        && card_present(d, 0x0005, 0)
        && card_present(d, 0x0501, 0)
        && card_present(d, 0x0501, 1)
        && card_present(d, 0xC100, 0)
        && card_present(d, 0xC108, 0)
        && card_present(d, 0x0520, 0)
        && card_present(d, 0x0520, 1)
        && card_present(d, 0x050E, 0)
        && card_present(d, 0x050E, 1)
        && card_present(d, 0x0521, 0)
        && card_present(d, 0x0521, 1)
        && card_present(d, 0x0502, 0)
        && card_present(d, 0x0502, 1)
        && card_present(d, 0x0503, 0)
        && card_present(d, 0x0503, 1)
        && card_present(d, 0x0504, 0)
        && card_present(d, 0x0504, 1)
        && card_present(d, 0x0505, 0)
        && card_present(d, 0x0505, 1)
        && card_present(d, 0x0506, 0)
        && card_present(d, 0x0506, 1)
        && card_present(d, 0x0507, 0)
        && card_present(d, 0x0507, 1)
        && card_present(d, 0x0508, 0)
        && card_present(d, 0x0508, 1)
        && card_present(d, 0x0522, 0)
        && card_present(d, 0x0522, 1)
        && card_present(d, 0x0002, 2)
        && card_present(d, 0x0005, 2)
        && card_present(d, 0x0501, 2)
        && card_present(d, 0x0501, 3)
        && card_present(d, 0xC101, 2)
        && card_present(d, 0xC108, 2)
        && card_present(d, 0xC109, 2)
        && card_present(d, 0x0520, 2)
        && card_present(d, 0x0520, 3)
        && card_present(d, 0x050E, 2)
        && card_present(d, 0x050E, 3)
        && card_present(d, 0x0521, 2)
        && card_present(d, 0x0521, 3)
        && card_present(d, 0x0502, 2)
        && card_present(d, 0x0502, 3)
        && card_present(d, 0x0503, 2)
        && card_present(d, 0x0503, 3)
        && card_present(d, 0x0504, 2)
        && card_present(d, 0x0504, 3)
        && card_present(d, 0x0505, 2)
        && card_present(d, 0x0505, 3)
        && card_present(d, 0x0506, 2)
        && card_present(d, 0x0506, 3)
        && card_present(d, 0x0507, 2)
        && card_present(d, 0x0507, 3)
        && card_present(d, 0x0508, 2)
        && card_present(d, 0x0508, 3)
        && card_present(d, 0x0522, 2)
        && card_present(d, 0x0522, 3)
        && card_present(d, 0x0523, 2)
        && card_present(d, 0x0523, 3)
        && card_present(d, 0x0524, 2)
        && card_present(d, 0x0524, 3)
}

/// The card file `d` reads with every file of both generations: every
/// entry read reads, the data does not stop inside a header, and every file
/// is there.
pub open spec fn full_card_ok(d: Seq<u8>) -> bool {
    let k = card_count(d);
    let s = card_entry_pos(d, k);
    &&& entries_read(d, k)
    &&& (s >= d.len() || bytes_ok(d, s, 3))
    &&& all_files_present(d)
}

/// The error of a card file that does not read so: that of the first entry
/// that does not read; else `UnexpectedEnd` where the data stops inside a
/// header; else `MissingBlock`.
pub open spec fn full_card_err(d: Seq<u8>) -> ParseError {
    let k = card_count(d);
    let s = card_entry_pos(d, k);
    match first_entry_err(d, k) {
        Some(e) => e,
        None => if !(s >= d.len() || bytes_ok(d, s, 3)) {
            ParseError::UnexpectedEnd
        } else {
            ParseError::MissingBlock
        },
    }
}

/// The files of generation 1 of a driver card, each with the length of its block.
#[derive(Debug)]
pub struct Gen1Blocks {
    pub card_icc_identification: CardBlock<CardIccIdentification>,
    pub card_chip_identification: CardBlock<CardChipIdentification>,
    pub application_identification: CardBlock<DriverCardApplicationIdentification>,
    pub application_identification_signature: CardBlock<Signature>,
    pub card_certificate: CardBlock<Certificate>,
    pub member_state_certificate: CardBlock<Certificate>,
    pub identification: CardBlock<Identification>,
    pub identification_signature: CardBlock<Signature>,
    pub card_download: CardBlock<CardDownload>,
    pub card_download_signature: CardBlock<Signature>,
    pub driver_licence_info: CardBlock<CardDrivingLicenceInformation>,
    pub driver_licence_info_signature: CardBlock<Signature>,
    pub events_data: CardBlock<CardEventData>,
    pub events_data_signature: CardBlock<Signature>,
    pub faults_data: CardBlock<CardFaultData>,
    pub faults_data_signature: CardBlock<Signature>,
    pub driver_activity_data: CardBlock<DriverActivityData>,
    pub driver_activity_data_signature: CardBlock<Signature>,
    pub vehicles_used: CardBlock<CardVehiclesUsed>,
    pub vehicles_used_signature: CardBlock<Signature>,
    pub places: CardBlock<CardPlaceDailyWorkPeriod>,
    pub places_signature: CardBlock<Signature>,
    pub current_usage: CardBlock<CurrentUsage>,
    pub current_usage_signature: CardBlock<Signature>,
    pub control_activity_data: CardBlock<CardControlActivityDataRecord>,
    pub control_activity_data_signature: CardBlock<Signature>,
    pub specific_conditions: CardBlock<SpecificConditions>,
    pub specific_conditions_signature: CardBlock<Signature>,
}

/// The files of generation 2 of a driver card, each with the length of its block.
#[derive(Debug)]
pub struct Gen2Blocks {
    pub card_icc_identification: CardBlock<CardIccIdentificationGen2>,
    pub card_chip_identification: CardBlock<CardChipIdentification>,
    pub application_identification: CardBlock<DriverCardApplicationIdentificationGen2>,
    pub application_identification_signature: CardBlock<SignatureGen2>,
    pub card_sign_certificate: CardBlock<CertificateGen2>,
    pub ca_certificate: CardBlock<CertificateGen2>,
    pub link_certificate: CardBlock<CertificateGen2>,
    pub identification: CardBlock<Identification>,
    pub identification_signature: CardBlock<SignatureGen2>,
    pub card_download: CardBlock<CardDownload>,
    pub card_download_signature: CardBlock<SignatureGen2>,
    pub driver_licence_information: CardBlock<CardDrivingLicenceInformation>,
    pub driver_licence_info_signature: CardBlock<SignatureGen2>,
    pub events_data: CardBlock<CardEventDataGen2>,
    pub events_data_signature: CardBlock<SignatureGen2>,
    pub faults_data: CardBlock<CardFaultDataGen2>,
    pub faults_data_signature: CardBlock<SignatureGen2>,
    pub driver_activity_data: CardBlock<DriverActivityData>,
    pub driver_activity_data_signature: CardBlock<SignatureGen2>,
    pub vehicles_used: CardBlock<CardVehiclesUsedGen2>,
    pub vehicles_used_signature: CardBlock<SignatureGen2>,
    pub places: CardBlock<CardPlaceDailyWorkPeriodGen2>,
    pub places_signature: CardBlock<SignatureGen2>,
    pub current_usage: CardBlock<CurrentUsage>,
    pub current_usage_signature: CardBlock<SignatureGen2>,
    pub control_activity_data: CardBlock<CardControlActivityDataRecordGen2>,
    pub control_activity_data_signature: CardBlock<SignatureGen2>,
    pub specific_conditions: CardBlock<SpecificConditionsGen2>,
    pub specific_conditions_signature: CardBlock<SignatureGen2>,
    pub vehicle_units_used: CardBlock<CardVehicleUnitsUsedGen2>,
    pub vehicle_units_used_signature: CardBlock<SignatureGen2>,
    pub gnss_accumulated_driving: CardBlock<GNSSAccumulatedDrivingGen2>,
    pub gnss_places_signature: CardBlock<SignatureGen2>,
}

/// The files of both generations of a driver card.
#[derive(Debug)]
pub struct CardData {
    pub gen1: Gen1Blocks,
    pub gen2: Gen2Blocks,
}

/// `v` holds, for each file, the block of the last entry of `d` that names it.
pub open spec fn full_card_as(d: Seq<u8>, v: CardData) -> bool {
    let k = card_count(d);
    block_slot_as::<CardIccIdentification>(d, k, 0x0002, 0, Some(v.gen1.card_icc_identification))
        && block_slot_as::<CardChipIdentification>(d, k, 0x0005, 0, Some(v.gen1.card_chip_identification))
        && block_slot_as::<DriverCardApplicationIdentification>(d, k, 0x0501, 0, Some(v.gen1.application_identification))
        && block_slot_as::<Signature>(d, k, 0x0501, 1, Some(v.gen1.application_identification_signature))
        && block_slot_as::<Certificate>(d, k, 0xC100, 0, Some(v.gen1.card_certificate))
        && block_slot_as::<Certificate>(d, k, 0xC108, 0, Some(v.gen1.member_state_certificate))
        && block_slot_as::<Identification>(d, k, 0x0520, 0, Some(v.gen1.identification))
        && block_slot_as::<Signature>(d, k, 0x0520, 1, Some(v.gen1.identification_signature))
        && block_slot_as::<CardDownload>(d, k, 0x050E, 0, Some(v.gen1.card_download))
        && block_slot_as::<Signature>(d, k, 0x050E, 1, Some(v.gen1.card_download_signature))
        && block_slot_as::<CardDrivingLicenceInformation>(d, k, 0x0521, 0, Some(v.gen1.driver_licence_info))
        && block_slot_as::<Signature>(d, k, 0x0521, 1, Some(v.gen1.driver_licence_info_signature))
        && dyn_block_slot_as::<CardEventData>(d, k, 0x0502, 0, Some(v.gen1.events_data))
        && block_slot_as::<Signature>(d, k, 0x0502, 1, Some(v.gen1.events_data_signature))
        && dyn_block_slot_as::<CardFaultData>(d, k, 0x0503, 0, Some(v.gen1.faults_data))
        && block_slot_as::<Signature>(d, k, 0x0503, 1, Some(v.gen1.faults_data_signature))
        && block_slot_as::<DriverActivityData>(d, k, 0x0504, 0, Some(v.gen1.driver_activity_data))
        && block_slot_as::<Signature>(d, k, 0x0504, 1, Some(v.gen1.driver_activity_data_signature))
        && dyn_block_slot_as::<CardVehiclesUsed>(d, k, 0x0505, 0, Some(v.gen1.vehicles_used))
        && block_slot_as::<Signature>(d, k, 0x0505, 1, Some(v.gen1.vehicles_used_signature))
        && dyn_block_slot_as::<CardPlaceDailyWorkPeriod>(d, k, 0x0506, 0, Some(v.gen1.places))
        && block_slot_as::<Signature>(d, k, 0x0506, 1, Some(v.gen1.places_signature))
        && block_slot_as::<CurrentUsage>(d, k, 0x0507, 0, Some(v.gen1.current_usage))
        && block_slot_as::<Signature>(d, k, 0x0507, 1, Some(v.gen1.current_usage_signature))
        && block_slot_as::<CardControlActivityDataRecord>(d, k, 0x0508, 0, Some(v.gen1.control_activity_data))
        && block_slot_as::<Signature>(d, k, 0x0508, 1, Some(v.gen1.control_activity_data_signature))
        && dyn_block_slot_as::<SpecificConditions>(d, k, 0x0522, 0, Some(v.gen1.specific_conditions))
        && block_slot_as::<Signature>(d, k, 0x0522, 1, Some(v.gen1.specific_conditions_signature))
        && block_slot_as::<CardIccIdentificationGen2>(d, k, 0x0002, 2, Some(v.gen2.card_icc_identification))
        && block_slot_as::<CardChipIdentification>(d, k, 0x0005, 2, Some(v.gen2.card_chip_identification))
        && block_slot_as::<DriverCardApplicationIdentificationGen2>(d, k, 0x0501, 2, Some(v.gen2.application_identification))
        && dyn_block_slot_as::<SignatureGen2>(d, k, 0x0501, 3, Some(v.gen2.application_identification_signature))
        && dyn_block_slot_as::<CertificateGen2>(d, k, 0xC101, 2, Some(v.gen2.card_sign_certificate))
        && dyn_block_slot_as::<CertificateGen2>(d, k, 0xC108, 2, Some(v.gen2.ca_certificate))
        && dyn_block_slot_as::<CertificateGen2>(d, k, 0xC109, 2, Some(v.gen2.link_certificate))
        && block_slot_as::<Identification>(d, k, 0x0520, 2, Some(v.gen2.identification))
        && dyn_block_slot_as::<SignatureGen2>(d, k, 0x0520, 3, Some(v.gen2.identification_signature))
        && block_slot_as::<CardDownload>(d, k, 0x050E, 2, Some(v.gen2.card_download))
        && dyn_block_slot_as::<SignatureGen2>(d, k, 0x050E, 3, Some(v.gen2.card_download_signature))
        && block_slot_as::<CardDrivingLicenceInformation>(d, k, 0x0521, 2, Some(v.gen2.driver_licence_information))
        && dyn_block_slot_as::<SignatureGen2>(d, k, 0x0521, 3, Some(v.gen2.driver_licence_info_signature))
        && dyn_block_slot_as::<CardEventDataGen2>(d, k, 0x0502, 2, Some(v.gen2.events_data))
        && dyn_block_slot_as::<SignatureGen2>(d, k, 0x0502, 3, Some(v.gen2.events_data_signature))
        && block_slot_as::<CardFaultDataGen2>(d, k, 0x0503, 2, Some(v.gen2.faults_data))
        && dyn_block_slot_as::<SignatureGen2>(d, k, 0x0503, 3, Some(v.gen2.faults_data_signature))
        && block_slot_as::<DriverActivityData>(d, k, 0x0504, 2, Some(v.gen2.driver_activity_data))
        && dyn_block_slot_as::<SignatureGen2>(d, k, 0x0504, 3, Some(v.gen2.driver_activity_data_signature))
        && dyn_block_slot_as::<CardVehiclesUsedGen2>(d, k, 0x0505, 2, Some(v.gen2.vehicles_used))
        && dyn_block_slot_as::<SignatureGen2>(d, k, 0x0505, 3, Some(v.gen2.vehicles_used_signature))
        && dyn_block_slot_as::<CardPlaceDailyWorkPeriodGen2>(d, k, 0x0506, 2, Some(v.gen2.places))
        && dyn_block_slot_as::<SignatureGen2>(d, k, 0x0506, 3, Some(v.gen2.places_signature))
        && block_slot_as::<CurrentUsage>(d, k, 0x0507, 2, Some(v.gen2.current_usage))
        && dyn_block_slot_as::<SignatureGen2>(d, k, 0x0507, 3, Some(v.gen2.current_usage_signature))
        && block_slot_as::<CardControlActivityDataRecordGen2>(d, k, 0x0508, 2, Some(v.gen2.control_activity_data))
        && dyn_block_slot_as::<SignatureGen2>(d, k, 0x0508, 3, Some(v.gen2.control_activity_data_signature))
        && dyn_block_slot_as::<SpecificConditionsGen2>(d, k, 0x0522, 2, Some(v.gen2.specific_conditions))
        && dyn_block_slot_as::<SignatureGen2>(d, k, 0x0522, 3, Some(v.gen2.specific_conditions_signature))
        && dyn_block_slot_as::<CardVehicleUnitsUsedGen2>(d, k, 0x0523, 2, Some(v.gen2.vehicle_units_used))
        && dyn_block_slot_as::<SignatureGen2>(d, k, 0x0523, 3, Some(v.gen2.vehicle_units_used_signature))
        && dyn_block_slot_as::<GNSSAccumulatedDrivingGen2>(d, k, 0x0524, 2, Some(v.gen2.gnss_accumulated_driving))
        && dyn_block_slot_as::<SignatureGen2>(d, k, 0x0524, 3, Some(v.gen2.gnss_places_signature))
}

/// The gen1 blocks read so far.
struct Gen1Slots {
    card_icc_identification: Option<CardBlock<CardIccIdentification>>,
    card_chip_identification: Option<CardBlock<CardChipIdentification>>,
    application_identification: Option<CardBlock<DriverCardApplicationIdentification>>,
    application_identification_signature: Option<CardBlock<Signature>>,
    card_certificate: Option<CardBlock<Certificate>>,
    member_state_certificate: Option<CardBlock<Certificate>>,
    identification: Option<CardBlock<Identification>>,
    identification_signature: Option<CardBlock<Signature>>,
    card_download: Option<CardBlock<CardDownload>>,
    card_download_signature: Option<CardBlock<Signature>>,
    driver_licence_info: Option<CardBlock<CardDrivingLicenceInformation>>,
    driver_licence_info_signature: Option<CardBlock<Signature>>,
    events_data: Option<CardBlock<CardEventData>>,
    events_data_signature: Option<CardBlock<Signature>>,
    faults_data: Option<CardBlock<CardFaultData>>,
    faults_data_signature: Option<CardBlock<Signature>>,
    driver_activity_data: Option<CardBlock<DriverActivityData>>,
    driver_activity_data_signature: Option<CardBlock<Signature>>,
    vehicles_used: Option<CardBlock<CardVehiclesUsed>>,
    vehicles_used_signature: Option<CardBlock<Signature>>,
    places: Option<CardBlock<CardPlaceDailyWorkPeriod>>,
    places_signature: Option<CardBlock<Signature>>,
    current_usage: Option<CardBlock<CurrentUsage>>,
    current_usage_signature: Option<CardBlock<Signature>>,
    control_activity_data: Option<CardBlock<CardControlActivityDataRecord>>,
    control_activity_data_signature: Option<CardBlock<Signature>>,
    specific_conditions: Option<CardBlock<SpecificConditions>>,
    specific_conditions_signature: Option<CardBlock<Signature>>,
}

/// `v` holds, for each gen1 file, the block of the last of the first `k` entries that names it.
spec fn gen1_slots_as(d: Seq<u8>, k: nat, v: Gen1Slots) -> bool {
    block_slot_as::<CardIccIdentification>(d, k, 0x0002, 0, v.card_icc_identification)
        && block_slot_as::<CardChipIdentification>(d, k, 0x0005, 0, v.card_chip_identification)
        && block_slot_as::<DriverCardApplicationIdentification>(d, k, 0x0501, 0, v.application_identification)
        && block_slot_as::<Signature>(d, k, 0x0501, 1, v.application_identification_signature)
        && block_slot_as::<Certificate>(d, k, 0xC100, 0, v.card_certificate)
        && block_slot_as::<Certificate>(d, k, 0xC108, 0, v.member_state_certificate)
        && block_slot_as::<Identification>(d, k, 0x0520, 0, v.identification)
        && block_slot_as::<Signature>(d, k, 0x0520, 1, v.identification_signature)
        && block_slot_as::<CardDownload>(d, k, 0x050E, 0, v.card_download)
        && block_slot_as::<Signature>(d, k, 0x050E, 1, v.card_download_signature)
        && block_slot_as::<CardDrivingLicenceInformation>(d, k, 0x0521, 0, v.driver_licence_info)
        && block_slot_as::<Signature>(d, k, 0x0521, 1, v.driver_licence_info_signature)
        && dyn_block_slot_as::<CardEventData>(d, k, 0x0502, 0, v.events_data)
        && block_slot_as::<Signature>(d, k, 0x0502, 1, v.events_data_signature)
        && dyn_block_slot_as::<CardFaultData>(d, k, 0x0503, 0, v.faults_data)
        && block_slot_as::<Signature>(d, k, 0x0503, 1, v.faults_data_signature)
        && block_slot_as::<DriverActivityData>(d, k, 0x0504, 0, v.driver_activity_data)
        && block_slot_as::<Signature>(d, k, 0x0504, 1, v.driver_activity_data_signature)
        && dyn_block_slot_as::<CardVehiclesUsed>(d, k, 0x0505, 0, v.vehicles_used)
        && block_slot_as::<Signature>(d, k, 0x0505, 1, v.vehicles_used_signature)
        && dyn_block_slot_as::<CardPlaceDailyWorkPeriod>(d, k, 0x0506, 0, v.places)
        && block_slot_as::<Signature>(d, k, 0x0506, 1, v.places_signature)
        && block_slot_as::<CurrentUsage>(d, k, 0x0507, 0, v.current_usage)
        && block_slot_as::<Signature>(d, k, 0x0507, 1, v.current_usage_signature)
        && block_slot_as::<CardControlActivityDataRecord>(d, k, 0x0508, 0, v.control_activity_data)
        && block_slot_as::<Signature>(d, k, 0x0508, 1, v.control_activity_data_signature)
        && dyn_block_slot_as::<SpecificConditions>(d, k, 0x0522, 0, v.specific_conditions)
        && block_slot_as::<Signature>(d, k, 0x0522, 1, v.specific_conditions_signature)
}

/// The gen2 blocks read so far.
struct Gen2Slots {
    card_icc_identification: Option<CardBlock<CardIccIdentificationGen2>>,
    card_chip_identification: Option<CardBlock<CardChipIdentification>>,
    application_identification: Option<CardBlock<DriverCardApplicationIdentificationGen2>>,
    application_identification_signature: Option<CardBlock<SignatureGen2>>,
    card_sign_certificate: Option<CardBlock<CertificateGen2>>,
    ca_certificate: Option<CardBlock<CertificateGen2>>,
    link_certificate: Option<CardBlock<CertificateGen2>>,
    identification: Option<CardBlock<Identification>>,
    identification_signature: Option<CardBlock<SignatureGen2>>,
    card_download: Option<CardBlock<CardDownload>>,
    card_download_signature: Option<CardBlock<SignatureGen2>>,
    driver_licence_info: Option<CardBlock<CardDrivingLicenceInformation>>,
    driver_licence_info_signature: Option<CardBlock<SignatureGen2>>,
    events_data: Option<CardBlock<CardEventDataGen2>>,
    events_data_signature: Option<CardBlock<SignatureGen2>>,
    faults_data: Option<CardBlock<CardFaultDataGen2>>,
    faults_data_signature: Option<CardBlock<SignatureGen2>>,
    driver_activity_data: Option<CardBlock<DriverActivityData>>,
    driver_activity_data_signature: Option<CardBlock<SignatureGen2>>,
    vehicles_used: Option<CardBlock<CardVehiclesUsedGen2>>,
    vehicles_used_signature: Option<CardBlock<SignatureGen2>>,
    places: Option<CardBlock<CardPlaceDailyWorkPeriodGen2>>,
    places_signature: Option<CardBlock<SignatureGen2>>,
    current_usage: Option<CardBlock<CurrentUsage>>,
    current_usage_signature: Option<CardBlock<SignatureGen2>>,
    control_activity_data: Option<CardBlock<CardControlActivityDataRecordGen2>>,
    control_activity_data_signature: Option<CardBlock<SignatureGen2>>,
    specific_conditions: Option<CardBlock<SpecificConditionsGen2>>,
    specific_conditions_signature: Option<CardBlock<SignatureGen2>>,
    vehicle_units_used: Option<CardBlock<CardVehicleUnitsUsedGen2>>,
    vehicle_units_used_signature: Option<CardBlock<SignatureGen2>>,
    gnss_accumulated_driving: Option<CardBlock<GNSSAccumulatedDrivingGen2>>,
    gnss_places_signature: Option<CardBlock<SignatureGen2>>,
}

/// `v` holds, for each gen2 file, the block of the last of the first `k` entries that names it.
spec fn gen2_slots_as(d: Seq<u8>, k: nat, v: Gen2Slots) -> bool {
    block_slot_as::<CardIccIdentificationGen2>(d, k, 0x0002, 2, v.card_icc_identification)
        && block_slot_as::<CardChipIdentification>(d, k, 0x0005, 2, v.card_chip_identification)
        && block_slot_as::<DriverCardApplicationIdentificationGen2>(d, k, 0x0501, 2, v.application_identification)
        && dyn_block_slot_as::<SignatureGen2>(d, k, 0x0501, 3, v.application_identification_signature)
        && dyn_block_slot_as::<CertificateGen2>(d, k, 0xC101, 2, v.card_sign_certificate)
        && dyn_block_slot_as::<CertificateGen2>(d, k, 0xC108, 2, v.ca_certificate)
        && dyn_block_slot_as::<CertificateGen2>(d, k, 0xC109, 2, v.link_certificate)
        && block_slot_as::<Identification>(d, k, 0x0520, 2, v.identification)
        && dyn_block_slot_as::<SignatureGen2>(d, k, 0x0520, 3, v.identification_signature)
        && block_slot_as::<CardDownload>(d, k, 0x050E, 2, v.card_download)
        && dyn_block_slot_as::<SignatureGen2>(d, k, 0x050E, 3, v.card_download_signature)
        && block_slot_as::<CardDrivingLicenceInformation>(d, k, 0x0521, 2, v.driver_licence_info)
        && dyn_block_slot_as::<SignatureGen2>(d, k, 0x0521, 3, v.driver_licence_info_signature)
        && dyn_block_slot_as::<CardEventDataGen2>(d, k, 0x0502, 2, v.events_data)
        && dyn_block_slot_as::<SignatureGen2>(d, k, 0x0502, 3, v.events_data_signature)
        && block_slot_as::<CardFaultDataGen2>(d, k, 0x0503, 2, v.faults_data)
        && dyn_block_slot_as::<SignatureGen2>(d, k, 0x0503, 3, v.faults_data_signature)
        && block_slot_as::<DriverActivityData>(d, k, 0x0504, 2, v.driver_activity_data)
        && dyn_block_slot_as::<SignatureGen2>(d, k, 0x0504, 3, v.driver_activity_data_signature)
        && dyn_block_slot_as::<CardVehiclesUsedGen2>(d, k, 0x0505, 2, v.vehicles_used)
        && dyn_block_slot_as::<SignatureGen2>(d, k, 0x0505, 3, v.vehicles_used_signature)
        && dyn_block_slot_as::<CardPlaceDailyWorkPeriodGen2>(d, k, 0x0506, 2, v.places)
        && dyn_block_slot_as::<SignatureGen2>(d, k, 0x0506, 3, v.places_signature)
        && block_slot_as::<CurrentUsage>(d, k, 0x0507, 2, v.current_usage)
        && dyn_block_slot_as::<SignatureGen2>(d, k, 0x0507, 3, v.current_usage_signature)
        && block_slot_as::<CardControlActivityDataRecordGen2>(d, k, 0x0508, 2, v.control_activity_data)
        && dyn_block_slot_as::<SignatureGen2>(d, k, 0x0508, 3, v.control_activity_data_signature)
        && dyn_block_slot_as::<SpecificConditionsGen2>(d, k, 0x0522, 2, v.specific_conditions)
        && dyn_block_slot_as::<SignatureGen2>(d, k, 0x0522, 3, v.specific_conditions_signature)
        && dyn_block_slot_as::<CardVehicleUnitsUsedGen2>(d, k, 0x0523, 2, v.vehicle_units_used)
        && dyn_block_slot_as::<SignatureGen2>(d, k, 0x0523, 3, v.vehicle_units_used_signature)
        && dyn_block_slot_as::<GNSSAccumulatedDrivingGen2>(d, k, 0x0524, 2, v.gnss_accumulated_driving)
        && dyn_block_slot_as::<SignatureGen2>(d, k, 0x0524, 3, v.gnss_places_signature)
}

/// Reads the block at the reader into `slot`, replacing what it held.
fn keep_block<T: Parse>(slot: &mut Option<CardBlock<T>>, cursor: &mut Cursor) -> (res: Result<(), ParseError>)
    ensures
        final(cursor).data() == old(cursor).data(),
        res is Ok <==> crate::card_parser::card_block_ok::<T>(old(cursor).data(), old(cursor).pos()),
        res is Ok ==> final(cursor).pos() == crate::card_parser::card_block_end(old(cursor).data(), old(cursor).pos()),
        res is Ok ==> (*final(slot) matches Some(b) && b.size == be16(old(cursor).data(), old(cursor).pos())
            && crate::card_parser::card_block_as::<T>(old(cursor).data(), old(cursor).pos(), b.data)),
        res matches Err(e) ==> e == crate::card_parser::card_block_err::<T>(old(cursor).data(), old(cursor).pos()),
{
    let block = CardBlock::<T>::parse(cursor)?;
    *slot = Some(block);
    Ok(())
}

/// Like `keep_block`, for files as long as their blocks.
fn keep_dyn_block<T: ParseDyn>(slot: &mut Option<CardBlock<T>>, cursor: &mut Cursor) -> (res: Result<(), ParseError>)
    ensures
        final(cursor).data() == old(cursor).data(),
        res is Ok <==> crate::card_parser::dyn_card_block_ok::<T>(old(cursor).data(), old(cursor).pos()),
        res is Ok ==> final(cursor).pos() == crate::card_parser::card_block_end(old(cursor).data(), old(cursor).pos()),
        res is Ok ==> (*final(slot) matches Some(b) && b.size == be16(old(cursor).data(), old(cursor).pos())
            && crate::card_parser::dyn_card_block_as::<T>(old(cursor).data(), old(cursor).pos(), b.data)),
        res matches Err(e) ==> e == crate::card_parser::dyn_card_block_err::<T>(old(cursor).data(), old(cursor).pos()),
{
    let block = CardBlock::<T>::parse_dyn_size(cursor)?;
    *slot = Some(block);
    Ok(())
}

/// The gen2 blocks read so far stay what they were across an entry of another generation.
proof fn lemma_gen2_frame(d: Seq<u8>, k: nat, v: Gen2Slots)
    requires
        d[card_entry_pos(d, k) + 2] == 0 || d[card_entry_pos(d, k) + 2] == 1,
        gen2_slots_as(d, k, v),
    ensures
        gen2_slots_as(d, k + 1, v),
{
}

/// Reads the block of an entry of type 0 whose header, at `q`, names file `sfid`, one of 0x0002, 0x0005, 0x0501, 0xC100, 0xC108.
#[verifier::spinoff_prover]
#[verifier::rlimit(100)]
fn read_gen1_entry_0_0(slots: &mut Gen1Slots, cursor: &mut Cursor, sfid: u16, fid: u8, Ghost(d): Ghost<Seq<u8>>, Ghost(q): Ghost<int>, Ghost(k): Ghost<nat>) -> (res: Result<(), ParseError>)
    requires
        old(cursor).data() == d,
        old(cursor).pos() == q + 3,
        bytes_ok(d, q, 3),
        sfid == be16(d, q),
        fid == d[q + 2],
        fid == 0,
        sfid == 0x0002 || sfid == 0x0005 || sfid == 0x0501 || sfid == 0xC100 || sfid == 0xC108,
        q == card_entry_pos(d, k),
        gen1_slots_as(d, k, *old(slots)),
    ensures
        final(cursor).data() == d,
        res is Ok ==> card_entry_ok(d, q) && final(cursor).pos() == card_next(d, q) && gen1_slots_as(d, k + 1, *final(slots)),
        res is Err ==> !card_entry_ok(d, q),
        res matches Err(e) ==> e == card_entry_err(d, q),
{
    match sfid {
        0x0002 => keep_block::<CardIccIdentification>(&mut slots.card_icc_identification, cursor),
        0x0005 => keep_block::<CardChipIdentification>(&mut slots.card_chip_identification, cursor),
        0x0501 => keep_block::<DriverCardApplicationIdentification>(&mut slots.application_identification, cursor),
        0xC100 => keep_block::<Certificate>(&mut slots.card_certificate, cursor),
        _ => keep_block::<Certificate>(&mut slots.member_state_certificate, cursor),
    }
}

/// Reads the block of an entry of type 0 whose header, at `q`, names file `sfid`, one of 0x0520, 0x050E, 0x0521, 0x0502, 0x0503.
#[verifier::spinoff_prover]
#[verifier::rlimit(100)]
fn read_gen1_entry_0_1(slots: &mut Gen1Slots, cursor: &mut Cursor, sfid: u16, fid: u8, Ghost(d): Ghost<Seq<u8>>, Ghost(q): Ghost<int>, Ghost(k): Ghost<nat>) -> (res: Result<(), ParseError>)
    requires
        old(cursor).data() == d,
        old(cursor).pos() == q + 3,
        bytes_ok(d, q, 3),
        sfid == be16(d, q),
        fid == d[q + 2],
        fid == 0,
        sfid == 0x0520 || sfid == 0x050E || sfid == 0x0521 || sfid == 0x0502 || sfid == 0x0503,
        q == card_entry_pos(d, k),
        gen1_slots_as(d, k, *old(slots)),
    ensures
        final(cursor).data() == d,
        res is Ok ==> card_entry_ok(d, q) && final(cursor).pos() == card_next(d, q) && gen1_slots_as(d, k + 1, *final(slots)),
        res is Err ==> !card_entry_ok(d, q),
        res matches Err(e) ==> e == card_entry_err(d, q),
{
    match sfid {
        0x0520 => keep_block::<Identification>(&mut slots.identification, cursor),
        0x050E => keep_block::<CardDownload>(&mut slots.card_download, cursor),
        0x0521 => keep_block::<CardDrivingLicenceInformation>(&mut slots.driver_licence_info, cursor),
        0x0502 => keep_dyn_block::<CardEventData>(&mut slots.events_data, cursor),
        _ => keep_dyn_block::<CardFaultData>(&mut slots.faults_data, cursor),
    }
}

/// Reads the block of an entry of type 0 whose header, at `q`, names file `sfid`, one of 0x0504, 0x0505, 0x0506, 0x0507, 0x0508.
#[verifier::spinoff_prover]
#[verifier::rlimit(100)]
fn read_gen1_entry_0_2(slots: &mut Gen1Slots, cursor: &mut Cursor, sfid: u16, fid: u8, Ghost(d): Ghost<Seq<u8>>, Ghost(q): Ghost<int>, Ghost(k): Ghost<nat>) -> (res: Result<(), ParseError>)
    requires
        old(cursor).data() == d,
        old(cursor).pos() == q + 3,
        bytes_ok(d, q, 3),
        sfid == be16(d, q),
        fid == d[q + 2],
        fid == 0,
        sfid == 0x0504 || sfid == 0x0505 || sfid == 0x0506 || sfid == 0x0507 || sfid == 0x0508,
        q == card_entry_pos(d, k),
        gen1_slots_as(d, k, *old(slots)),
    ensures
        final(cursor).data() == d,
        res is Ok ==> card_entry_ok(d, q) && final(cursor).pos() == card_next(d, q) && gen1_slots_as(d, k + 1, *final(slots)),
        res is Err ==> !card_entry_ok(d, q),
        res matches Err(e) ==> e == card_entry_err(d, q),
{
    match sfid {
        0x0504 => keep_block::<DriverActivityData>(&mut slots.driver_activity_data, cursor),
        0x0505 => keep_dyn_block::<CardVehiclesUsed>(&mut slots.vehicles_used, cursor),
        0x0506 => keep_dyn_block::<CardPlaceDailyWorkPeriod>(&mut slots.places, cursor),
        0x0507 => keep_block::<CurrentUsage>(&mut slots.current_usage, cursor),
        _ => keep_block::<CardControlActivityDataRecord>(&mut slots.control_activity_data, cursor),
    }
}

/// Reads the block of an entry of type 0 whose header, at `q`, names file `sfid`, one of 0x0522.
#[verifier::spinoff_prover]
#[verifier::rlimit(100)]
fn read_gen1_entry_0_3(slots: &mut Gen1Slots, cursor: &mut Cursor, sfid: u16, fid: u8, Ghost(d): Ghost<Seq<u8>>, Ghost(q): Ghost<int>, Ghost(k): Ghost<nat>) -> (res: Result<(), ParseError>)
    requires
        old(cursor).data() == d,
        old(cursor).pos() == q + 3,
        bytes_ok(d, q, 3),
        sfid == be16(d, q),
        fid == d[q + 2],
        fid == 0,
        sfid == 0x0522,
        q == card_entry_pos(d, k),
        gen1_slots_as(d, k, *old(slots)),
    ensures
        final(cursor).data() == d,
        res is Ok ==> card_entry_ok(d, q) && final(cursor).pos() == card_next(d, q) && gen1_slots_as(d, k + 1, *final(slots)),
        res is Err ==> !card_entry_ok(d, q),
        res matches Err(e) ==> e == card_entry_err(d, q),
{
    match sfid {
        _ => keep_dyn_block::<SpecificConditions>(&mut slots.specific_conditions, cursor),
    }
}

/// Reads the block of an entry of type 0 whose header, at `q`, names file `sfid`.
fn read_gen1_entry_0(slots: &mut Gen1Slots, cursor: &mut Cursor, sfid: u16, fid: u8, Ghost(d): Ghost<Seq<u8>>, Ghost(q): Ghost<int>, Ghost(k): Ghost<nat>) -> (res: Result<bool, ParseError>)
    requires
        old(cursor).data() == d,
        old(cursor).pos() == q + 3,
        bytes_ok(d, q, 3),
        sfid == be16(d, q),
        fid == d[q + 2],
        fid == 0,
        q == card_entry_pos(d, k),
        gen1_slots_as(d, k, *old(slots)),
    ensures
        final(cursor).data() == d,
        res matches Ok(b) ==> b == card_tag_known(sfid as int, fid as int),
        res matches Ok(false) ==> *final(slots) == *old(slots),
        res matches Ok(true) ==> card_entry_ok(d, q) && final(cursor).pos() == card_next(d, q) && gen1_slots_as(d, k + 1, *final(slots)),
        res is Err ==> card_tag_known(sfid as int, fid as int) && !card_entry_ok(d, q),
        res matches Err(e) ==> e == card_entry_err(d, q),
{
    match sfid {
        0x0002 | 0x0005 | 0x0501 | 0xC100 | 0xC108 => {
            read_gen1_entry_0_0(slots, cursor, sfid, fid, Ghost(d), Ghost(q), Ghost(k))?;
            Ok(true)
        },
        0x0520 | 0x050E | 0x0521 | 0x0502 | 0x0503 => {
            read_gen1_entry_0_1(slots, cursor, sfid, fid, Ghost(d), Ghost(q), Ghost(k))?;
            Ok(true)
        },
        0x0504 | 0x0505 | 0x0506 | 0x0507 | 0x0508 => {
            read_gen1_entry_0_2(slots, cursor, sfid, fid, Ghost(d), Ghost(q), Ghost(k))?;
            Ok(true)
        },
        0x0522 => {
            read_gen1_entry_0_3(slots, cursor, sfid, fid, Ghost(d), Ghost(q), Ghost(k))?;
            Ok(true)
        },
        _ => Ok(false),
    }
}

/// Reads the block of an entry of type 1 whose header, at `q`, names file `sfid`, one of 0x0501, 0x0520, 0x050E, 0x0521, 0x0502.
#[verifier::spinoff_prover]
#[verifier::rlimit(100)]
fn read_gen1_entry_1_0(slots: &mut Gen1Slots, cursor: &mut Cursor, sfid: u16, fid: u8, Ghost(d): Ghost<Seq<u8>>, Ghost(q): Ghost<int>, Ghost(k): Ghost<nat>) -> (res: Result<(), ParseError>)
    requires
        old(cursor).data() == d,
        old(cursor).pos() == q + 3,
        bytes_ok(d, q, 3),
        sfid == be16(d, q),
        fid == d[q + 2],
        fid == 1,
        sfid == 0x0501 || sfid == 0x0520 || sfid == 0x050E || sfid == 0x0521 || sfid == 0x0502,
        q == card_entry_pos(d, k),
        gen1_slots_as(d, k, *old(slots)),
    ensures
        final(cursor).data() == d,
        res is Ok ==> card_entry_ok(d, q) && final(cursor).pos() == card_next(d, q) && gen1_slots_as(d, k + 1, *final(slots)),
        res is Err ==> !card_entry_ok(d, q),
        res matches Err(e) ==> e == card_entry_err(d, q),
{
    match sfid {
        0x0501 => keep_block::<Signature>(&mut slots.application_identification_signature, cursor),
        0x0520 => keep_block::<Signature>(&mut slots.identification_signature, cursor),
        0x050E => keep_block::<Signature>(&mut slots.card_download_signature, cursor),
        0x0521 => keep_block::<Signature>(&mut slots.driver_licence_info_signature, cursor),
        _ => keep_block::<Signature>(&mut slots.events_data_signature, cursor),
    }
}

/// Reads the block of an entry of type 1 whose header, at `q`, names file `sfid`, one of 0x0503, 0x0504, 0x0505, 0x0506, 0x0507.
#[verifier::spinoff_prover]
#[verifier::rlimit(100)]
fn read_gen1_entry_1_1(slots: &mut Gen1Slots, cursor: &mut Cursor, sfid: u16, fid: u8, Ghost(d): Ghost<Seq<u8>>, Ghost(q): Ghost<int>, Ghost(k): Ghost<nat>) -> (res: Result<(), ParseError>)
    requires
        old(cursor).data() == d,
        old(cursor).pos() == q + 3,
        bytes_ok(d, q, 3),
        sfid == be16(d, q),
        fid == d[q + 2],
        fid == 1,
        sfid == 0x0503 || sfid == 0x0504 || sfid == 0x0505 || sfid == 0x0506 || sfid == 0x0507,
        q == card_entry_pos(d, k),
        gen1_slots_as(d, k, *old(slots)),
    ensures
        final(cursor).data() == d,
        res is Ok ==> card_entry_ok(d, q) && final(cursor).pos() == card_next(d, q) && gen1_slots_as(d, k + 1, *final(slots)),
        res is Err ==> !card_entry_ok(d, q),
        res matches Err(e) ==> e == card_entry_err(d, q),
{
    match sfid {
        0x0503 => keep_block::<Signature>(&mut slots.faults_data_signature, cursor),
        0x0504 => keep_block::<Signature>(&mut slots.driver_activity_data_signature, cursor),
        0x0505 => keep_block::<Signature>(&mut slots.vehicles_used_signature, cursor),
        0x0506 => keep_block::<Signature>(&mut slots.places_signature, cursor),
        _ => keep_block::<Signature>(&mut slots.current_usage_signature, cursor),
    }
}

/// Reads the block of an entry of type 1 whose header, at `q`, names file `sfid`, one of 0x0508, 0x0522.
#[verifier::spinoff_prover]
#[verifier::rlimit(100)]
fn read_gen1_entry_1_2(slots: &mut Gen1Slots, cursor: &mut Cursor, sfid: u16, fid: u8, Ghost(d): Ghost<Seq<u8>>, Ghost(q): Ghost<int>, Ghost(k): Ghost<nat>) -> (res: Result<(), ParseError>)
    requires
        old(cursor).data() == d,
        old(cursor).pos() == q + 3,
        bytes_ok(d, q, 3),
        sfid == be16(d, q),
        fid == d[q + 2],
        fid == 1,
        sfid == 0x0508 || sfid == 0x0522,
        q == card_entry_pos(d, k),
        gen1_slots_as(d, k, *old(slots)),
    ensures
        final(cursor).data() == d,
        res is Ok ==> card_entry_ok(d, q) && final(cursor).pos() == card_next(d, q) && gen1_slots_as(d, k + 1, *final(slots)),
        res is Err ==> !card_entry_ok(d, q),
        res matches Err(e) ==> e == card_entry_err(d, q),
{
    match sfid {
        0x0508 => keep_block::<Signature>(&mut slots.control_activity_data_signature, cursor),
        _ => keep_block::<Signature>(&mut slots.specific_conditions_signature, cursor),
    }
}

/// Reads the block of an entry of type 1 whose header, at `q`, names file `sfid`.
fn read_gen1_entry_1(slots: &mut Gen1Slots, cursor: &mut Cursor, sfid: u16, fid: u8, Ghost(d): Ghost<Seq<u8>>, Ghost(q): Ghost<int>, Ghost(k): Ghost<nat>) -> (res: Result<bool, ParseError>)
    requires
        old(cursor).data() == d,
        old(cursor).pos() == q + 3,
        bytes_ok(d, q, 3),
        sfid == be16(d, q),
        fid == d[q + 2],
        fid == 1,
        q == card_entry_pos(d, k),
        gen1_slots_as(d, k, *old(slots)),
    ensures
        final(cursor).data() == d,
        res matches Ok(b) ==> b == card_tag_known(sfid as int, fid as int),
        res matches Ok(false) ==> *final(slots) == *old(slots),
        res matches Ok(true) ==> card_entry_ok(d, q) && final(cursor).pos() == card_next(d, q) && gen1_slots_as(d, k + 1, *final(slots)),
        res is Err ==> card_tag_known(sfid as int, fid as int) && !card_entry_ok(d, q),
        res matches Err(e) ==> e == card_entry_err(d, q),
{
    match sfid {
        0x0501 | 0x0520 | 0x050E | 0x0521 | 0x0502 => {
            read_gen1_entry_1_0(slots, cursor, sfid, fid, Ghost(d), Ghost(q), Ghost(k))?;
            Ok(true)
        },
        0x0503 | 0x0504 | 0x0505 | 0x0506 | 0x0507 => {
            read_gen1_entry_1_1(slots, cursor, sfid, fid, Ghost(d), Ghost(q), Ghost(k))?;
            Ok(true)
        },
        0x0508 | 0x0522 => {
            read_gen1_entry_1_2(slots, cursor, sfid, fid, Ghost(d), Ghost(q), Ghost(k))?;
            Ok(true)
        },
        _ => Ok(false),
    }
}

/// The gen1 blocks read so far stay what they were across an entry of another generation.
proof fn lemma_gen1_frame(d: Seq<u8>, k: nat, v: Gen1Slots)
    requires
        d[card_entry_pos(d, k) + 2] == 2 || d[card_entry_pos(d, k) + 2] == 3,
        gen1_slots_as(d, k, v),
    ensures
        gen1_slots_as(d, k + 1, v),
{
}

/// Reads the block of an entry of type 2 whose header, at `q`, names file `sfid`, one of 0x0002, 0x0005, 0x0501, 0xC101, 0xC108.
#[verifier::spinoff_prover]
#[verifier::rlimit(100)]
fn read_gen2_entry_2_0(slots: &mut Gen2Slots, cursor: &mut Cursor, sfid: u16, fid: u8, Ghost(d): Ghost<Seq<u8>>, Ghost(q): Ghost<int>, Ghost(k): Ghost<nat>) -> (res: Result<(), ParseError>)
    requires
        old(cursor).data() == d,
        old(cursor).pos() == q + 3,
        bytes_ok(d, q, 3),
        sfid == be16(d, q),
        fid == d[q + 2],
        fid == 2,
        sfid == 0x0002 || sfid == 0x0005 || sfid == 0x0501 || sfid == 0xC101 || sfid == 0xC108,
        q == card_entry_pos(d, k),
        gen2_slots_as(d, k, *old(slots)),
    ensures
        final(cursor).data() == d,
        res is Ok ==> card_entry_ok(d, q) && final(cursor).pos() == card_next(d, q) && gen2_slots_as(d, k + 1, *final(slots)),
        res is Err ==> !card_entry_ok(d, q),
        res matches Err(e) ==> e == card_entry_err(d, q),
{
    match sfid {
        0x0002 => keep_block::<CardIccIdentificationGen2>(&mut slots.card_icc_identification, cursor),
        0x0005 => keep_block::<CardChipIdentification>(&mut slots.card_chip_identification, cursor),
        0x0501 => keep_block::<DriverCardApplicationIdentificationGen2>(&mut slots.application_identification, cursor),
        0xC101 => keep_dyn_block::<CertificateGen2>(&mut slots.card_sign_certificate, cursor),
        _ => keep_dyn_block::<CertificateGen2>(&mut slots.ca_certificate, cursor),
    }
}

/// Reads the block of an entry of type 2 whose header, at `q`, names file `sfid`, one of 0xC109, 0x0520, 0x050E, 0x0521, 0x0502.
#[verifier::spinoff_prover]
#[verifier::rlimit(100)]
fn read_gen2_entry_2_1(slots: &mut Gen2Slots, cursor: &mut Cursor, sfid: u16, fid: u8, Ghost(d): Ghost<Seq<u8>>, Ghost(q): Ghost<int>, Ghost(k): Ghost<nat>) -> (res: Result<(), ParseError>)
    requires
        old(cursor).data() == d,
        old(cursor).pos() == q + 3,
        bytes_ok(d, q, 3),
        sfid == be16(d, q),
        fid == d[q + 2],
        fid == 2,
        sfid == 0xC109 || sfid == 0x0520 || sfid == 0x050E || sfid == 0x0521 || sfid == 0x0502,
        q == card_entry_pos(d, k),
        gen2_slots_as(d, k, *old(slots)),
    ensures
        final(cursor).data() == d,
        res is Ok ==> card_entry_ok(d, q) && final(cursor).pos() == card_next(d, q) && gen2_slots_as(d, k + 1, *final(slots)),
        res is Err ==> !card_entry_ok(d, q),
        res matches Err(e) ==> e == card_entry_err(d, q),
{
    match sfid {
        0xC109 => keep_dyn_block::<CertificateGen2>(&mut slots.link_certificate, cursor),
        0x0520 => keep_block::<Identification>(&mut slots.identification, cursor),
        0x050E => keep_block::<CardDownload>(&mut slots.card_download, cursor),
        0x0521 => keep_block::<CardDrivingLicenceInformation>(&mut slots.driver_licence_info, cursor),
        _ => keep_dyn_block::<CardEventDataGen2>(&mut slots.events_data, cursor),
    }
}

/// Reads the block of an entry of type 2 whose header, at `q`, names file `sfid`, one of 0x0503, 0x0504, 0x0505, 0x0506, 0x0507.
#[verifier::spinoff_prover]
#[verifier::rlimit(100)]
fn read_gen2_entry_2_2(slots: &mut Gen2Slots, cursor: &mut Cursor, sfid: u16, fid: u8, Ghost(d): Ghost<Seq<u8>>, Ghost(q): Ghost<int>, Ghost(k): Ghost<nat>) -> (res: Result<(), ParseError>)
    requires
        old(cursor).data() == d,
        old(cursor).pos() == q + 3,
        bytes_ok(d, q, 3),
        sfid == be16(d, q),
        fid == d[q + 2],
        fid == 2,
        sfid == 0x0503 || sfid == 0x0504 || sfid == 0x0505 || sfid == 0x0506 || sfid == 0x0507,
        q == card_entry_pos(d, k),
        gen2_slots_as(d, k, *old(slots)),
    ensures
        final(cursor).data() == d,
        res is Ok ==> card_entry_ok(d, q) && final(cursor).pos() == card_next(d, q) && gen2_slots_as(d, k + 1, *final(slots)),
        res is Err ==> !card_entry_ok(d, q),
        res matches Err(e) ==> e == card_entry_err(d, q),
{
    match sfid {
        0x0503 => keep_block::<CardFaultDataGen2>(&mut slots.faults_data, cursor),
        0x0504 => keep_block::<DriverActivityData>(&mut slots.driver_activity_data, cursor),
        0x0505 => keep_dyn_block::<CardVehiclesUsedGen2>(&mut slots.vehicles_used, cursor),
        0x0506 => keep_dyn_block::<CardPlaceDailyWorkPeriodGen2>(&mut slots.places, cursor),
        _ => keep_block::<CurrentUsage>(&mut slots.current_usage, cursor),
    }
}

/// Reads the block of an entry of type 2 whose header, at `q`, names file `sfid`, one of 0x0508, 0x0522, 0x0523, 0x0524.
#[verifier::spinoff_prover]
#[verifier::rlimit(100)]
fn read_gen2_entry_2_3(slots: &mut Gen2Slots, cursor: &mut Cursor, sfid: u16, fid: u8, Ghost(d): Ghost<Seq<u8>>, Ghost(q): Ghost<int>, Ghost(k): Ghost<nat>) -> (res: Result<(), ParseError>)
    requires
        old(cursor).data() == d,
        old(cursor).pos() == q + 3,
        bytes_ok(d, q, 3),
        sfid == be16(d, q),
        fid == d[q + 2],
        fid == 2,
        sfid == 0x0508 || sfid == 0x0522 || sfid == 0x0523 || sfid == 0x0524,
        q == card_entry_pos(d, k),
        gen2_slots_as(d, k, *old(slots)),
    ensures
        final(cursor).data() == d,
        res is Ok ==> card_entry_ok(d, q) && final(cursor).pos() == card_next(d, q) && gen2_slots_as(d, k + 1, *final(slots)),
        res is Err ==> !card_entry_ok(d, q),
        res matches Err(e) ==> e == card_entry_err(d, q),
{
    match sfid {
        0x0508 => keep_block::<CardControlActivityDataRecordGen2>(&mut slots.control_activity_data, cursor),
        0x0522 => keep_dyn_block::<SpecificConditionsGen2>(&mut slots.specific_conditions, cursor),
        0x0523 => keep_dyn_block::<CardVehicleUnitsUsedGen2>(&mut slots.vehicle_units_used, cursor),
        _ => keep_dyn_block::<GNSSAccumulatedDrivingGen2>(&mut slots.gnss_accumulated_driving, cursor),
    }
}

/// Reads the block of an entry of type 2 whose header, at `q`, names file `sfid`.
fn read_gen2_entry_2(slots: &mut Gen2Slots, cursor: &mut Cursor, sfid: u16, fid: u8, Ghost(d): Ghost<Seq<u8>>, Ghost(q): Ghost<int>, Ghost(k): Ghost<nat>) -> (res: Result<bool, ParseError>)
    requires
        old(cursor).data() == d,
        old(cursor).pos() == q + 3,
        bytes_ok(d, q, 3),
        sfid == be16(d, q),
        fid == d[q + 2],
        fid == 2,
        q == card_entry_pos(d, k),
        gen2_slots_as(d, k, *old(slots)),
    ensures
        final(cursor).data() == d,
        res matches Ok(b) ==> b == card_tag_known(sfid as int, fid as int),
        res matches Ok(false) ==> *final(slots) == *old(slots),
        res matches Ok(true) ==> card_entry_ok(d, q) && final(cursor).pos() == card_next(d, q) && gen2_slots_as(d, k + 1, *final(slots)),
        res is Err ==> card_tag_known(sfid as int, fid as int) && !card_entry_ok(d, q),
        res matches Err(e) ==> e == card_entry_err(d, q),
{
    match sfid {
        0x0002 | 0x0005 | 0x0501 | 0xC101 | 0xC108 => {
            read_gen2_entry_2_0(slots, cursor, sfid, fid, Ghost(d), Ghost(q), Ghost(k))?;
            Ok(true)
        },
        0xC109 | 0x0520 | 0x050E | 0x0521 | 0x0502 => {
            read_gen2_entry_2_1(slots, cursor, sfid, fid, Ghost(d), Ghost(q), Ghost(k))?;
            Ok(true)
        },
        0x0503 | 0x0504 | 0x0505 | 0x0506 | 0x0507 => {
            read_gen2_entry_2_2(slots, cursor, sfid, fid, Ghost(d), Ghost(q), Ghost(k))?;
            Ok(true)
        },
        0x0508 | 0x0522 | 0x0523 | 0x0524 => {
            read_gen2_entry_2_3(slots, cursor, sfid, fid, Ghost(d), Ghost(q), Ghost(k))?;
            Ok(true)
        },
        _ => Ok(false),
    }
}

/// Reads the block of an entry of type 3 whose header, at `q`, names file `sfid`, one of 0x0501, 0x0520, 0x050E, 0x0521, 0x0502.
#[verifier::spinoff_prover]
#[verifier::rlimit(100)]
fn read_gen2_entry_3_0(slots: &mut Gen2Slots, cursor: &mut Cursor, sfid: u16, fid: u8, Ghost(d): Ghost<Seq<u8>>, Ghost(q): Ghost<int>, Ghost(k): Ghost<nat>) -> (res: Result<(), ParseError>)
    requires
        old(cursor).data() == d,
        old(cursor).pos() == q + 3,
        bytes_ok(d, q, 3),
        sfid == be16(d, q),
        fid == d[q + 2],
        fid == 3,
        sfid == 0x0501 || sfid == 0x0520 || sfid == 0x050E || sfid == 0x0521 || sfid == 0x0502,
        q == card_entry_pos(d, k),
        gen2_slots_as(d, k, *old(slots)),
    ensures
        final(cursor).data() == d,
        res is Ok ==> card_entry_ok(d, q) && final(cursor).pos() == card_next(d, q) && gen2_slots_as(d, k + 1, *final(slots)),
        res is Err ==> !card_entry_ok(d, q),
        res matches Err(e) ==> e == card_entry_err(d, q),
{
    match sfid {
        0x0501 => keep_dyn_block::<SignatureGen2>(&mut slots.application_identification_signature, cursor),
        0x0520 => keep_dyn_block::<SignatureGen2>(&mut slots.identification_signature, cursor),
        0x050E => keep_dyn_block::<SignatureGen2>(&mut slots.card_download_signature, cursor),
        0x0521 => keep_dyn_block::<SignatureGen2>(&mut slots.driver_licence_info_signature, cursor),
        _ => keep_dyn_block::<SignatureGen2>(&mut slots.events_data_signature, cursor),
    }
}

/// Reads the block of an entry of type 3 whose header, at `q`, names file `sfid`, one of 0x0503, 0x0504, 0x0505, 0x0506, 0x0507.
#[verifier::spinoff_prover]
#[verifier::rlimit(100)]
fn read_gen2_entry_3_1(slots: &mut Gen2Slots, cursor: &mut Cursor, sfid: u16, fid: u8, Ghost(d): Ghost<Seq<u8>>, Ghost(q): Ghost<int>, Ghost(k): Ghost<nat>) -> (res: Result<(), ParseError>)
    requires
        old(cursor).data() == d,
        old(cursor).pos() == q + 3,
        bytes_ok(d, q, 3),
        sfid == be16(d, q),
        fid == d[q + 2],
        fid == 3,
        sfid == 0x0503 || sfid == 0x0504 || sfid == 0x0505 || sfid == 0x0506 || sfid == 0x0507,
        q == card_entry_pos(d, k),
        gen2_slots_as(d, k, *old(slots)),
    ensures
        final(cursor).data() == d,
        res is Ok ==> card_entry_ok(d, q) && final(cursor).pos() == card_next(d, q) && gen2_slots_as(d, k + 1, *final(slots)),
        res is Err ==> !card_entry_ok(d, q),
        res matches Err(e) ==> e == card_entry_err(d, q),
{
    match sfid {
        0x0503 => keep_dyn_block::<SignatureGen2>(&mut slots.faults_data_signature, cursor),
        0x0504 => keep_dyn_block::<SignatureGen2>(&mut slots.driver_activity_data_signature, cursor),
        0x0505 => keep_dyn_block::<SignatureGen2>(&mut slots.vehicles_used_signature, cursor),
        0x0506 => keep_dyn_block::<SignatureGen2>(&mut slots.places_signature, cursor),
        _ => keep_dyn_block::<SignatureGen2>(&mut slots.current_usage_signature, cursor),
    }
}

/// Reads the block of an entry of type 3 whose header, at `q`, names file `sfid`, one of 0x0508, 0x0522, 0x0523, 0x0524.
#[verifier::spinoff_prover]
#[verifier::rlimit(100)]
fn read_gen2_entry_3_2(slots: &mut Gen2Slots, cursor: &mut Cursor, sfid: u16, fid: u8, Ghost(d): Ghost<Seq<u8>>, Ghost(q): Ghost<int>, Ghost(k): Ghost<nat>) -> (res: Result<(), ParseError>)
    requires
        old(cursor).data() == d,
        old(cursor).pos() == q + 3,
        bytes_ok(d, q, 3),
        sfid == be16(d, q),
        fid == d[q + 2],
        fid == 3,
        sfid == 0x0508 || sfid == 0x0522 || sfid == 0x0523 || sfid == 0x0524,
        q == card_entry_pos(d, k),
        gen2_slots_as(d, k, *old(slots)),
    ensures
        final(cursor).data() == d,
        res is Ok ==> card_entry_ok(d, q) && final(cursor).pos() == card_next(d, q) && gen2_slots_as(d, k + 1, *final(slots)),
        res is Err ==> !card_entry_ok(d, q),
        res matches Err(e) ==> e == card_entry_err(d, q),
{
    match sfid {
        0x0508 => keep_dyn_block::<SignatureGen2>(&mut slots.control_activity_data_signature, cursor),
        0x0522 => keep_dyn_block::<SignatureGen2>(&mut slots.specific_conditions_signature, cursor),
        0x0523 => keep_dyn_block::<SignatureGen2>(&mut slots.vehicle_units_used_signature, cursor),
        _ => keep_dyn_block::<SignatureGen2>(&mut slots.gnss_places_signature, cursor),
    }
}

/// Reads the block of an entry of type 3 whose header, at `q`, names file `sfid`.
fn read_gen2_entry_3(slots: &mut Gen2Slots, cursor: &mut Cursor, sfid: u16, fid: u8, Ghost(d): Ghost<Seq<u8>>, Ghost(q): Ghost<int>, Ghost(k): Ghost<nat>) -> (res: Result<bool, ParseError>)
    requires
        old(cursor).data() == d,
        old(cursor).pos() == q + 3,
        bytes_ok(d, q, 3),
        sfid == be16(d, q),
        fid == d[q + 2],
        fid == 3,
        q == card_entry_pos(d, k),
        gen2_slots_as(d, k, *old(slots)),
    ensures
        final(cursor).data() == d,
        res matches Ok(b) ==> b == card_tag_known(sfid as int, fid as int),
        res matches Ok(false) ==> *final(slots) == *old(slots),
        res matches Ok(true) ==> card_entry_ok(d, q) && final(cursor).pos() == card_next(d, q) && gen2_slots_as(d, k + 1, *final(slots)),
        res is Err ==> card_tag_known(sfid as int, fid as int) && !card_entry_ok(d, q),
        res matches Err(e) ==> e == card_entry_err(d, q),
{
    match sfid {
        0x0501 | 0x0520 | 0x050E | 0x0521 | 0x0502 => {
            read_gen2_entry_3_0(slots, cursor, sfid, fid, Ghost(d), Ghost(q), Ghost(k))?;
            Ok(true)
        },
        0x0503 | 0x0504 | 0x0505 | 0x0506 | 0x0507 => {
            read_gen2_entry_3_1(slots, cursor, sfid, fid, Ghost(d), Ghost(q), Ghost(k))?;
            Ok(true)
        },
        0x0508 | 0x0522 | 0x0523 | 0x0524 => {
            read_gen2_entry_3_2(slots, cursor, sfid, fid, Ghost(d), Ghost(q), Ghost(k))?;
            Ok(true)
        },
        _ => Ok(false),
    }
}

proof fn lemma_entries_read_mono(d: Seq<u8>, k: nat, m: nat)
    requires
        k <= m,
    ensures
        entries_read(d, m) ==> entries_read(d, k),
    decreases m,
{
    if k < m {
        lemma_entries_read_mono(d, k, (m - 1) as nat);
    }
}

/// No entry among the first `k` fails exactly when all of them read.
proof fn lemma_first_entry_err_none(d: Seq<u8>, k: nat)
    ensures
        first_entry_err(d, k) is None <==> entries_read(d, k),
    decreases k,
{
    if k > 0 {
        lemma_first_entry_err_none(d, (k - 1) as nat);
    }
}

/// The error of the first failing entry stays the first error as more entries are counted.
proof fn lemma_first_entry_err_stays(d: Seq<u8>, k: nat, m: nat)
    requires
        k <= m,
        first_entry_err(d, k) is Some,
    ensures
        first_entry_err(d, m) == first_entry_err(d, k),
    decreases m,
{
    if k < m {
        lemma_first_entry_err_stays(d, k, (m - 1) as nat);
    }
}

/// When the first `k` entries read and entry `k`, one that is read, does
/// not, its error is the error of the card file.
proof fn lemma_entry_fails(d: Seq<u8>, k: nat)
    requires
        entries_read(d, k),
        k < card_count(d),
        !card_entry_ok(d, card_entry_pos(d, k)),
    ensures
        full_card_err(d) == card_entry_err(d, card_entry_pos(d, k)),
{
    lemma_first_entry_err_none(d, k);
    lemma_first_entry_err_stays(d, k + 1, card_count(d));
}

/// A parser of driver card files that must hold both generations, holding the file's bytes.
pub struct CardParser {
    input: Vec<u8>,
}

impl CardParser {
    /// The file's bytes.
    pub closed spec fn bytes(self) -> Seq<u8> {
        self.input@
    }

    /// A parser of `bytes`.
    pub fn new_from_bytes(bytes: &[u8]) -> (res: Result<CardParser, ParseError>)
        ensures
            res matches Ok(p) && p.bytes() == bytes@,
    {
        Ok(CardParser { input: slice_to_vec(bytes) })
    }

    /// Reads the entries of the card file from the start, up to the end of
    /// the data or the first entry that names no file the parser reads, and
    /// gathers the blocks of both generations, all of which must be there.
    pub fn parse(&self) -> (res: Result<CardData, ParseError>)
        ensures
            res is Ok <==> full_card_ok(self.bytes()),
            res matches Ok(v) ==> full_card_as(self.bytes(), v),
            res matches Err(e) ==> e == full_card_err(self.bytes()),
    {
        let ghost d = self.bytes();
        let mut cursor = Cursor::new(self.input.as_slice());

        let mut g1 = Gen1Slots { card_icc_identification: None, card_chip_identification: None, application_identification: None, application_identification_signature: None, card_certificate: None, member_state_certificate: None, identification: None, identification_signature: None, card_download: None, card_download_signature: None, driver_licence_info: None, driver_licence_info_signature: None, events_data: None, events_data_signature: None, faults_data: None, faults_data_signature: None, driver_activity_data: None, driver_activity_data_signature: None, vehicles_used: None, vehicles_used_signature: None, places: None, places_signature: None, current_usage: None, current_usage_signature: None, control_activity_data: None, control_activity_data_signature: None, specific_conditions: None, specific_conditions_signature: None };
        let mut g2 = Gen2Slots { card_icc_identification: None, card_chip_identification: None, application_identification: None, application_identification_signature: None, card_sign_certificate: None, ca_certificate: None, link_certificate: None, identification: None, identification_signature: None, card_download: None, card_download_signature: None, driver_licence_info: None, driver_licence_info_signature: None, events_data: None, events_data_signature: None, faults_data: None, faults_data_signature: None, driver_activity_data: None, driver_activity_data_signature: None, vehicles_used: None, vehicles_used_signature: None, places: None, places_signature: None, current_usage: None, current_usage_signature: None, control_activity_data: None, control_activity_data_signature: None, specific_conditions: None, specific_conditions_signature: None, vehicle_units_used: None, vehicle_units_used_signature: None, gnss_accumulated_driving: None, gnss_places_signature: None };
        let ghost mut k: nat = 0;
        loop
            invariant_except_break
                cursor.pos() == card_entry_pos(d, k),
            invariant
                cursor.data() == d,
                d == self.bytes(),
                card_count(d) == k + card_scan(d, card_entry_pos(d, k)),
                entries_read(d, k),
                gen1_slots_as(d, k, g1),
                gen2_slots_as(d, k, g2),
            ensures
                card_count(d) == k,
                entries_read(d, k),
                card_entry_pos(d, k) >= d.len() || bytes_ok(d, card_entry_pos(d, k), 3),
                gen1_slots_as(d, k, g1),
                gen2_slots_as(d, k, g2),
            decreases card_count(d) - k,
        {
            let remaining = cursor.remaining();
            if remaining == 0 {
                break;
            }
            if remaining < 3 {
                proof {
                    lemma_first_entry_err_none(d, k);
                }
                return Err(ParseError::UnexpectedEnd);
            }
            let ghost q = cursor.pos();
            let sfid = cursor.read_u16_be()?;
            let fid = cursor.read_u8()?;
            proof {
                if card_tag_known(sfid as int, fid as int) {
                    lemma_entries_read_mono(d, k + 1, card_count(d));
                }
            }
            let known = if fid == 0 || fid == 1 {
                let read = if fid == 0 {
                    read_gen1_entry_0(&mut g1, &mut cursor, sfid, fid, Ghost(d), Ghost(q), Ghost(k))
                } else {
                    read_gen1_entry_1(&mut g1, &mut cursor, sfid, fid, Ghost(d), Ghost(q), Ghost(k))
                };
                let known = match read {
                    Ok(b) => b,
                    Err(e) => {
                        proof {
                            lemma_entry_fails(d, k);
                        }
                        return Err(e);
                    },
                };
                proof {
                    lemma_gen2_frame(d, k, g2);
                }
                known
            } else if fid == 2 || fid == 3 {
                let read = if fid == 2 {
                    read_gen2_entry_2(&mut g2, &mut cursor, sfid, fid, Ghost(d), Ghost(q), Ghost(k))
                } else {
                    read_gen2_entry_3(&mut g2, &mut cursor, sfid, fid, Ghost(d), Ghost(q), Ghost(k))
                };
                let known = match read {
                    Ok(b) => b,
                    Err(e) => {
                        proof {
                            lemma_entry_fails(d, k);
                        }
                        return Err(e);
                    },
                };
                proof {
                    lemma_gen1_frame(d, k, g1);
                }
                known
            } else {
                false
            };
            if !known {
                break;
            }
            proof {
                k = k + 1;
            }
        }
        proof {
            lemma_first_entry_err_none(d, k);
        }
        let Gen1Slots { card_icc_identification: card_icc_identification, card_chip_identification: card_chip_identification, application_identification: application_identification, application_identification_signature: application_identification_signature, card_certificate: card_certificate, member_state_certificate: member_state_certificate, identification: identification, identification_signature: identification_signature, card_download: card_download, card_download_signature: card_download_signature, driver_licence_info: driver_licence_info, driver_licence_info_signature: driver_licence_info_signature, events_data: events_data, events_data_signature: events_data_signature, faults_data: faults_data, faults_data_signature: faults_data_signature, driver_activity_data: driver_activity_data, driver_activity_data_signature: driver_activity_data_signature, vehicles_used: vehicles_used, vehicles_used_signature: vehicles_used_signature, places: places, places_signature: places_signature, current_usage: current_usage, current_usage_signature: current_usage_signature, control_activity_data: control_activity_data, control_activity_data_signature: control_activity_data_signature, specific_conditions: specific_conditions, specific_conditions_signature: specific_conditions_signature } = g1;
        let card_icc_identification = match card_icc_identification {
            Some(b) => b,
            None => return Err(ParseError::MissingBlock),
        };
        let card_chip_identification = match card_chip_identification {
            Some(b) => b,
            None => return Err(ParseError::MissingBlock),
        };
        let application_identification = match application_identification {
            Some(b) => b,
            None => return Err(ParseError::MissingBlock),
        };
        let application_identification_signature = match application_identification_signature {
            Some(b) => b,
            None => return Err(ParseError::MissingBlock),
        };
        let card_certificate = match card_certificate {
            Some(b) => b,
            None => return Err(ParseError::MissingBlock),
        };
        let member_state_certificate = match member_state_certificate {
            Some(b) => b,
            None => return Err(ParseError::MissingBlock),
        };
        let identification = match identification {
            Some(b) => b,
            None => return Err(ParseError::MissingBlock),
        };
        let identification_signature = match identification_signature {
            Some(b) => b,
            None => return Err(ParseError::MissingBlock),
        };
        let card_download = match card_download {
            Some(b) => b,
            None => return Err(ParseError::MissingBlock),
        };
        let card_download_signature = match card_download_signature {
            Some(b) => b,
            None => return Err(ParseError::MissingBlock),
        };
        let driver_licence_info = match driver_licence_info {
            Some(b) => b,
            None => return Err(ParseError::MissingBlock),
        };
        let driver_licence_info_signature = match driver_licence_info_signature {
            Some(b) => b,
            None => return Err(ParseError::MissingBlock),
        };
        let events_data = match events_data {
            Some(b) => b,
            None => return Err(ParseError::MissingBlock),
        };
        let events_data_signature = match events_data_signature {
            Some(b) => b,
            None => return Err(ParseError::MissingBlock),
        };
        let faults_data = match faults_data {
            Some(b) => b,
            None => return Err(ParseError::MissingBlock),
        };
        let faults_data_signature = match faults_data_signature {
            Some(b) => b,
            None => return Err(ParseError::MissingBlock),
        };
        let driver_activity_data = match driver_activity_data {
            Some(b) => b,
            None => return Err(ParseError::MissingBlock),
        };
        let driver_activity_data_signature = match driver_activity_data_signature {
            Some(b) => b,
            None => return Err(ParseError::MissingBlock),
        };
        let vehicles_used = match vehicles_used {
            Some(b) => b,
            None => return Err(ParseError::MissingBlock),
        };
        let vehicles_used_signature = match vehicles_used_signature {
            Some(b) => b,
            None => return Err(ParseError::MissingBlock),
        };
        let places = match places {
            Some(b) => b,
            None => return Err(ParseError::MissingBlock),
        };
        let places_signature = match places_signature {
            Some(b) => b,
            None => return Err(ParseError::MissingBlock),
        };
        let current_usage = match current_usage {
            Some(b) => b,
            None => return Err(ParseError::MissingBlock),
        };
        let current_usage_signature = match current_usage_signature {
            Some(b) => b,
            None => return Err(ParseError::MissingBlock),
        };
        let control_activity_data = match control_activity_data {
            Some(b) => b,
            None => return Err(ParseError::MissingBlock),
        };
        let control_activity_data_signature = match control_activity_data_signature {
            Some(b) => b,
            None => return Err(ParseError::MissingBlock),
        };
        let specific_conditions = match specific_conditions {
            Some(b) => b,
            None => return Err(ParseError::MissingBlock),
        };
        let specific_conditions_signature = match specific_conditions_signature {
            Some(b) => b,
            None => return Err(ParseError::MissingBlock),
        };
        let g1_blocks = Gen1Blocks { card_icc_identification: card_icc_identification, card_chip_identification: card_chip_identification, application_identification: application_identification, application_identification_signature: application_identification_signature, card_certificate: card_certificate, member_state_certificate: member_state_certificate, identification: identification, identification_signature: identification_signature, card_download: card_download, card_download_signature: card_download_signature, driver_licence_info: driver_licence_info, driver_licence_info_signature: driver_licence_info_signature, events_data: events_data, events_data_signature: events_data_signature, faults_data: faults_data, faults_data_signature: faults_data_signature, driver_activity_data: driver_activity_data, driver_activity_data_signature: driver_activity_data_signature, vehicles_used: vehicles_used, vehicles_used_signature: vehicles_used_signature, places: places, places_signature: places_signature, current_usage: current_usage, current_usage_signature: current_usage_signature, control_activity_data: control_activity_data, control_activity_data_signature: control_activity_data_signature, specific_conditions: specific_conditions, specific_conditions_signature: specific_conditions_signature };
        let Gen2Slots { card_icc_identification: card_icc_identification_gen2, card_chip_identification: card_chip_identification_gen2, application_identification: application_identification_gen2, application_identification_signature: application_identification_signature_gen2, card_sign_certificate: card_sign_certificate_gen2, ca_certificate: ca_certificate_gen2, link_certificate: link_certificate_gen2, identification: identification_gen2, identification_signature: identification_signature_gen2, card_download: card_download_gen2, card_download_signature: card_download_signature_gen2, driver_licence_info: driver_licence_info_gen2, driver_licence_info_signature: driver_licence_info_signature_gen2, events_data: events_data_gen2, events_data_signature: events_data_signature_gen2, faults_data: faults_data_gen2, faults_data_signature: faults_data_signature_gen2, driver_activity_data: driver_activity_data_gen2, driver_activity_data_signature: driver_activity_data_signature_gen2, vehicles_used: vehicles_used_gen2, vehicles_used_signature: vehicles_used_signature_gen2, places: places_gen2, places_signature: places_signature_gen2, current_usage: current_usage_gen2, current_usage_signature: current_usage_signature_gen2, control_activity_data: control_activity_data_gen2, control_activity_data_signature: control_activity_data_signature_gen2, specific_conditions: specific_conditions_gen2, specific_conditions_signature: specific_conditions_signature_gen2, vehicle_units_used: vehicle_units_used_gen2, vehicle_units_used_signature: vehicle_units_used_signature_gen2, gnss_accumulated_driving: gnss_accumulated_driving_gen2, gnss_places_signature: gnss_places_signature_gen2 } = g2;
        let card_icc_identification_gen2 = match card_icc_identification_gen2 {
            Some(b) => b,
            None => return Err(ParseError::MissingBlock),
        };
        let card_chip_identification_gen2 = match card_chip_identification_gen2 {
            Some(b) => b,
            None => return Err(ParseError::MissingBlock),
        };
        let application_identification_gen2 = match application_identification_gen2 {
            Some(b) => b,
            None => return Err(ParseError::MissingBlock),
        };
        let application_identification_signature_gen2 = match application_identification_signature_gen2 {
            Some(b) => b,
            None => return Err(ParseError::MissingBlock),
        };
        let card_sign_certificate_gen2 = match card_sign_certificate_gen2 {
            Some(b) => b,
            None => return Err(ParseError::MissingBlock),
        };
        let ca_certificate_gen2 = match ca_certificate_gen2 {
            Some(b) => b,
            None => return Err(ParseError::MissingBlock),
        };
        let link_certificate_gen2 = match link_certificate_gen2 {
            Some(b) => b,
            None => return Err(ParseError::MissingBlock),
        };
        let identification_gen2 = match identification_gen2 {
            Some(b) => b,
            None => return Err(ParseError::MissingBlock),
        };
        let identification_signature_gen2 = match identification_signature_gen2 {
            Some(b) => b,
            None => return Err(ParseError::MissingBlock),
        };
        let card_download_gen2 = match card_download_gen2 {
            Some(b) => b,
            None => return Err(ParseError::MissingBlock),
        };
        let card_download_signature_gen2 = match card_download_signature_gen2 {
            Some(b) => b,
            None => return Err(ParseError::MissingBlock),
        };
        let driver_licence_info_gen2 = match driver_licence_info_gen2 {
            Some(b) => b,
            None => return Err(ParseError::MissingBlock),
        };
        let driver_licence_info_signature_gen2 = match driver_licence_info_signature_gen2 {
            Some(b) => b,
            None => return Err(ParseError::MissingBlock),
        };
        let events_data_gen2 = match events_data_gen2 {
            Some(b) => b,
            None => return Err(ParseError::MissingBlock),
        };
        let events_data_signature_gen2 = match events_data_signature_gen2 {
            Some(b) => b,
            None => return Err(ParseError::MissingBlock),
        };
        let faults_data_gen2 = match faults_data_gen2 {
            Some(b) => b,
            None => return Err(ParseError::MissingBlock),
        };
        let faults_data_signature_gen2 = match faults_data_signature_gen2 {
            Some(b) => b,
            None => return Err(ParseError::MissingBlock),
        };
        let driver_activity_data_gen2 = match driver_activity_data_gen2 {
            Some(b) => b,
            None => return Err(ParseError::MissingBlock),
        };
        let driver_activity_data_signature_gen2 = match driver_activity_data_signature_gen2 {
            Some(b) => b,
            None => return Err(ParseError::MissingBlock),
        };
        let vehicles_used_gen2 = match vehicles_used_gen2 {
            Some(b) => b,
            None => return Err(ParseError::MissingBlock),
        };
        let vehicles_used_signature_gen2 = match vehicles_used_signature_gen2 {
            Some(b) => b,
            None => return Err(ParseError::MissingBlock),
        };
        let places_gen2 = match places_gen2 {
            Some(b) => b,
            None => return Err(ParseError::MissingBlock),
        };
        let places_signature_gen2 = match places_signature_gen2 {
            Some(b) => b,
            None => return Err(ParseError::MissingBlock),
        };
        let current_usage_gen2 = match current_usage_gen2 {
            Some(b) => b,
            None => return Err(ParseError::MissingBlock),
        };
        let current_usage_signature_gen2 = match current_usage_signature_gen2 {
            Some(b) => b,
            None => return Err(ParseError::MissingBlock),
        };
        let control_activity_data_gen2 = match control_activity_data_gen2 {
            Some(b) => b,
            None => return Err(ParseError::MissingBlock),
        };
        let control_activity_data_signature_gen2 = match control_activity_data_signature_gen2 {
            Some(b) => b,
            None => return Err(ParseError::MissingBlock),
        };
        let specific_conditions_gen2 = match specific_conditions_gen2 {
            Some(b) => b,
            None => return Err(ParseError::MissingBlock),
        };
        let specific_conditions_signature_gen2 = match specific_conditions_signature_gen2 {
            Some(b) => b,
            None => return Err(ParseError::MissingBlock),
        };
        let vehicle_units_used_gen2 = match vehicle_units_used_gen2 {
            Some(b) => b,
            None => return Err(ParseError::MissingBlock),
        };
        let vehicle_units_used_signature_gen2 = match vehicle_units_used_signature_gen2 {
            Some(b) => b,
            None => return Err(ParseError::MissingBlock),
        };
        let gnss_accumulated_driving_gen2 = match gnss_accumulated_driving_gen2 {
            Some(b) => b,
            None => return Err(ParseError::MissingBlock),
        };
        let gnss_places_signature_gen2 = match gnss_places_signature_gen2 {
            Some(b) => b,
            None => return Err(ParseError::MissingBlock),
        };
        let g2_blocks = Gen2Blocks { card_icc_identification: card_icc_identification_gen2, card_chip_identification: card_chip_identification_gen2, application_identification: application_identification_gen2, application_identification_signature: application_identification_signature_gen2, card_sign_certificate: card_sign_certificate_gen2, ca_certificate: ca_certificate_gen2, link_certificate: link_certificate_gen2, identification: identification_gen2, identification_signature: identification_signature_gen2, card_download: card_download_gen2, card_download_signature: card_download_signature_gen2, driver_licence_information: driver_licence_info_gen2, driver_licence_info_signature: driver_licence_info_signature_gen2, events_data: events_data_gen2, events_data_signature: events_data_signature_gen2, faults_data: faults_data_gen2, faults_data_signature: faults_data_signature_gen2, driver_activity_data: driver_activity_data_gen2, driver_activity_data_signature: driver_activity_data_signature_gen2, vehicles_used: vehicles_used_gen2, vehicles_used_signature: vehicles_used_signature_gen2, places: places_gen2, places_signature: places_signature_gen2, current_usage: current_usage_gen2, current_usage_signature: current_usage_signature_gen2, control_activity_data: control_activity_data_gen2, control_activity_data_signature: control_activity_data_signature_gen2, specific_conditions: specific_conditions_gen2, specific_conditions_signature: specific_conditions_signature_gen2, vehicle_units_used: vehicle_units_used_gen2, vehicle_units_used_signature: vehicle_units_used_signature_gen2, gnss_accumulated_driving: gnss_accumulated_driving_gen2, gnss_places_signature: gnss_places_signature_gen2 };
        Ok(CardData { gen1: g1_blocks, gen2: g2_blocks })
    }
}

} // verus!
