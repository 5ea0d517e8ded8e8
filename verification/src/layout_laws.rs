//! Laws of the file-level readers stated against the layout of the files:
//! which entry or block each field of a result comes from.
use crate::card_files::{full_card_as, Gen1Blocks, Gen2Blocks};
use crate::card_parser::{
    card_block_as, card_count, card_data_as, card_last_entry, dyn_card_block_as, CardData,
    CardGen1Blocks, CardGen2Blocks,
};
use crate::cursor::{be16, Parse};
use crate::vu_files::{full_count, full_entries_with, vu_files_as};
use crate::vu_parser::{vu_count, vu_data_as, vu_entries_with, VuData};
use vstd::prelude::*;

use crate::dt::gen1::{
    CardControlActivityDataRecord, CardEventData, CardFaultData, CardIccIdentification,
    CardPlaceDailyWorkPeriod, CardVehiclesUsed, Certificate, DriverCardApplicationIdentification,
    Signature, SpecificConditions, VuActivitiesBlock, VuCompanyLocksBlock, VuDetailedSpeedData,
    VuEventsAndFaultsBlock, VuOverviewBlock,
};
use crate::dt::gen2::{
    CardControlActivityDataRecordGen2, CardEventDataGen2, CardFaultDataGen2,
    CardIccIdentificationGen2, CardPlaceDailyWorkPeriodGen2, CardVehicleUnitsUsedGen2,
    CardVehiclesUsedGen2, CertificateGen2, DriverCardApplicationIdentificationGen2,
    GNSSAccumulatedDrivingGen2, SignatureGen2, SpecificConditionsGen2, VuActivitiesBlockGen2,
    VuCompanyLocksBlockGen2, VuEventsAndFaultsBlockGen2, VuOverviewBlockGen2, VuSpeedBlockGen2,
};
use crate::dt::gen2v2::{VuActivitiesBlockGen2V2, VuCompanyLocksGen2V2, VuOverviewBlockGen2V2};
use crate::dt::{
    CardChipIdentification, CardDownload, CardDrivingLicenceInformation, CurrentUsage,
    DriverActivityData, Identification,
};

verus! {

/// Each file of generation 1 that the card parser returns is the file of the
/// last entry read whose header names its file identifier and type 0
/// (its signature: type 1); a file that a card need not hold is absent
/// exactly when no entry names it.
pub proof fn law_card_gen1_files_by_entry(d: Seq<u8>, v: CardData, b: CardGen1Blocks)
    requires
        card_data_as(d, v),
        (v matches CardData::Gen1 { gen1_blocks } && gen1_blocks == b) || (v matches CardData::Gen2 { gen1_blocks, .. } && gen1_blocks == b),
    ensures
        card_last_entry(d, card_count(d), 0x0002, 0) matches Some(q) && card_block_as::<CardIccIdentification>(d, q + 3, b.card_icc_identification),
        card_last_entry(d, card_count(d), 0x0005, 0) matches Some(q) && card_block_as::<CardChipIdentification>(d, q + 3, b.card_chip_identification),
        card_last_entry(d, card_count(d), 0x0501, 0) matches Some(q) && card_block_as::<DriverCardApplicationIdentification>(d, q + 3, b.application_identification),
        card_last_entry(d, card_count(d), 0x0501, 1) matches Some(q) && card_block_as::<Signature>(d, q + 3, b.application_identification_signature),
        card_last_entry(d, card_count(d), 0xC100, 0) matches Some(q) && card_block_as::<Certificate>(d, q + 3, b.card_certificate),
        card_last_entry(d, card_count(d), 0xC108, 0) matches Some(q) && card_block_as::<Certificate>(d, q + 3, b.member_state_certificate),
        card_last_entry(d, card_count(d), 0x0520, 0) matches Some(q) && card_block_as::<Identification>(d, q + 3, b.identification),
        card_last_entry(d, card_count(d), 0x0520, 1) matches Some(q) && card_block_as::<Signature>(d, q + 3, b.identification_signature),
        card_last_entry(d, card_count(d), 0x050E, 0) is None <==> b.card_download is None,
        card_last_entry(d, card_count(d), 0x050E, 0) matches Some(q) ==> (b.card_download matches Some(x) && card_block_as::<CardDownload>(d, q + 3, x)),
        card_last_entry(d, card_count(d), 0x050E, 1) is None <==> b.card_download_signature is None,
        card_last_entry(d, card_count(d), 0x050E, 1) matches Some(q) ==> (b.card_download_signature matches Some(x) && card_block_as::<Signature>(d, q + 3, x)),
        card_last_entry(d, card_count(d), 0x0521, 0) is None <==> b.driver_licence_info is None,
        card_last_entry(d, card_count(d), 0x0521, 0) matches Some(q) ==> (b.driver_licence_info matches Some(x) && card_block_as::<CardDrivingLicenceInformation>(d, q + 3, x)),
        card_last_entry(d, card_count(d), 0x0521, 1) is None <==> b.driver_licence_info_signature is None,
        card_last_entry(d, card_count(d), 0x0521, 1) matches Some(q) ==> (b.driver_licence_info_signature matches Some(x) && card_block_as::<Signature>(d, q + 3, x)),
        card_last_entry(d, card_count(d), 0x0502, 0) matches Some(q) && dyn_card_block_as::<CardEventData>(d, q + 3, b.events_data),
        card_last_entry(d, card_count(d), 0x0502, 1) matches Some(q) && card_block_as::<Signature>(d, q + 3, b.events_data_signature),
        card_last_entry(d, card_count(d), 0x0503, 0) matches Some(q) && dyn_card_block_as::<CardFaultData>(d, q + 3, b.faults_data),
        card_last_entry(d, card_count(d), 0x0503, 1) matches Some(q) && card_block_as::<Signature>(d, q + 3, b.faults_data_signature),
        card_last_entry(d, card_count(d), 0x0504, 0) matches Some(q) && card_block_as::<DriverActivityData>(d, q + 3, b.driver_activity_data),
        card_last_entry(d, card_count(d), 0x0504, 1) matches Some(q) && card_block_as::<Signature>(d, q + 3, b.driver_activity_data_signature),
        card_last_entry(d, card_count(d), 0x0505, 0) matches Some(q) && dyn_card_block_as::<CardVehiclesUsed>(d, q + 3, b.vehicles_used),
        card_last_entry(d, card_count(d), 0x0505, 1) matches Some(q) && card_block_as::<Signature>(d, q + 3, b.vehicles_used_signature),
        card_last_entry(d, card_count(d), 0x0506, 0) matches Some(q) && dyn_card_block_as::<CardPlaceDailyWorkPeriod>(d, q + 3, b.places),
        card_last_entry(d, card_count(d), 0x0506, 1) matches Some(q) && card_block_as::<Signature>(d, q + 3, b.places_signature),
        card_last_entry(d, card_count(d), 0x0507, 0) is None <==> b.current_usage is None,
        card_last_entry(d, card_count(d), 0x0507, 0) matches Some(q) ==> (b.current_usage matches Some(x) && card_block_as::<CurrentUsage>(d, q + 3, x)),
        card_last_entry(d, card_count(d), 0x0507, 1) is None <==> b.current_usage_signature is None,
        card_last_entry(d, card_count(d), 0x0507, 1) matches Some(q) ==> (b.current_usage_signature matches Some(x) && card_block_as::<Signature>(d, q + 3, x)),
        card_last_entry(d, card_count(d), 0x0508, 0) matches Some(q) && card_block_as::<CardControlActivityDataRecord>(d, q + 3, b.control_activity_data),
        card_last_entry(d, card_count(d), 0x0508, 1) matches Some(q) && card_block_as::<Signature>(d, q + 3, b.control_activity_data_signature),
        card_last_entry(d, card_count(d), 0x0522, 0) matches Some(q) && dyn_card_block_as::<SpecificConditions>(d, q + 3, b.specific_conditions),
        card_last_entry(d, card_count(d), 0x0522, 1) matches Some(q) && card_block_as::<Signature>(d, q + 3, b.specific_conditions_signature),
{
}

/// Each file of generation 2 that the card parser returns is the file of the
/// last entry read whose header names its file identifier and type 2
/// (its signature: type 3); a file that a card need not hold is absent
/// exactly when no entry names it.
pub proof fn law_card_gen2_files_by_entry(d: Seq<u8>, v: CardData, b: CardGen2Blocks)
    requires
        card_data_as(d, v),
        v matches CardData::Gen2 { gen2_blocks, .. } && gen2_blocks == b,
    ensures
        card_last_entry(d, card_count(d), 0x0002, 2) matches Some(q) && card_block_as::<CardIccIdentificationGen2>(d, q + 3, b.card_icc_identification),
        card_last_entry(d, card_count(d), 0x0005, 2) matches Some(q) && card_block_as::<CardChipIdentification>(d, q + 3, b.card_chip_identification),
        card_last_entry(d, card_count(d), 0x0501, 2) matches Some(q) && card_block_as::<DriverCardApplicationIdentificationGen2>(d, q + 3, b.application_identification),
        card_last_entry(d, card_count(d), 0x0501, 3) matches Some(q) && dyn_card_block_as::<SignatureGen2>(d, q + 3, b.application_identification_signature),
        card_last_entry(d, card_count(d), 0xC101, 2) matches Some(q) && dyn_card_block_as::<CertificateGen2>(d, q + 3, b.card_sign_certificate),
        card_last_entry(d, card_count(d), 0xC108, 2) matches Some(q) && dyn_card_block_as::<CertificateGen2>(d, q + 3, b.ca_certificate),
        card_last_entry(d, card_count(d), 0xC109, 2) matches Some(q) && dyn_card_block_as::<CertificateGen2>(d, q + 3, b.link_certificate),
        card_last_entry(d, card_count(d), 0x0520, 2) matches Some(q) && card_block_as::<Identification>(d, q + 3, b.identification),
        card_last_entry(d, card_count(d), 0x0520, 3) matches Some(q) && dyn_card_block_as::<SignatureGen2>(d, q + 3, b.identification_signature),
        card_last_entry(d, card_count(d), 0x050E, 2) is None <==> b.card_download is None,
        card_last_entry(d, card_count(d), 0x050E, 2) matches Some(q) ==> (b.card_download matches Some(x) && card_block_as::<CardDownload>(d, q + 3, x)),
        card_last_entry(d, card_count(d), 0x050E, 3) is None <==> b.card_download_signature is None,
        card_last_entry(d, card_count(d), 0x050E, 3) matches Some(q) ==> (b.card_download_signature matches Some(x) && dyn_card_block_as::<SignatureGen2>(d, q + 3, x)),
        card_last_entry(d, card_count(d), 0x0521, 2) is None <==> b.driver_licence_info is None,
        card_last_entry(d, card_count(d), 0x0521, 2) matches Some(q) ==> (b.driver_licence_info matches Some(x) && card_block_as::<CardDrivingLicenceInformation>(d, q + 3, x)),
        card_last_entry(d, card_count(d), 0x0521, 3) is None <==> b.driver_licence_info_signature is None,
        card_last_entry(d, card_count(d), 0x0521, 3) matches Some(q) ==> (b.driver_licence_info_signature matches Some(x) && dyn_card_block_as::<SignatureGen2>(d, q + 3, x)),
        card_last_entry(d, card_count(d), 0x0502, 2) matches Some(q) && dyn_card_block_as::<CardEventDataGen2>(d, q + 3, b.events_data),
        card_last_entry(d, card_count(d), 0x0502, 3) matches Some(q) && dyn_card_block_as::<SignatureGen2>(d, q + 3, b.events_data_signature),
        card_last_entry(d, card_count(d), 0x0503, 2) matches Some(q) && card_block_as::<CardFaultDataGen2>(d, q + 3, b.faults_data),
        card_last_entry(d, card_count(d), 0x0503, 3) matches Some(q) && dyn_card_block_as::<SignatureGen2>(d, q + 3, b.faults_data_signature),
        card_last_entry(d, card_count(d), 0x0504, 2) matches Some(q) && card_block_as::<DriverActivityData>(d, q + 3, b.driver_activity_data),
        card_last_entry(d, card_count(d), 0x0504, 3) matches Some(q) && dyn_card_block_as::<SignatureGen2>(d, q + 3, b.driver_activity_data_signature),
        card_last_entry(d, card_count(d), 0x0505, 2) matches Some(q) && dyn_card_block_as::<CardVehiclesUsedGen2>(d, q + 3, b.vehicles_used),
        card_last_entry(d, card_count(d), 0x0505, 3) matches Some(q) && dyn_card_block_as::<SignatureGen2>(d, q + 3, b.vehicles_used_signature),
        card_last_entry(d, card_count(d), 0x0506, 2) matches Some(q) && dyn_card_block_as::<CardPlaceDailyWorkPeriodGen2>(d, q + 3, b.places),
        card_last_entry(d, card_count(d), 0x0506, 3) matches Some(q) && dyn_card_block_as::<SignatureGen2>(d, q + 3, b.places_signature),
        card_last_entry(d, card_count(d), 0x0507, 2) is None <==> b.current_usage is None,
        card_last_entry(d, card_count(d), 0x0507, 2) matches Some(q) ==> (b.current_usage matches Some(x) && card_block_as::<CurrentUsage>(d, q + 3, x)),
        card_last_entry(d, card_count(d), 0x0507, 3) is None <==> b.current_usage_signature is None,
        card_last_entry(d, card_count(d), 0x0507, 3) matches Some(q) ==> (b.current_usage_signature matches Some(x) && dyn_card_block_as::<SignatureGen2>(d, q + 3, x)),
        card_last_entry(d, card_count(d), 0x0508, 2) matches Some(q) && card_block_as::<CardControlActivityDataRecordGen2>(d, q + 3, b.control_activity_data),
        card_last_entry(d, card_count(d), 0x0508, 3) matches Some(q) && dyn_card_block_as::<SignatureGen2>(d, q + 3, b.control_activity_data_signature),
        card_last_entry(d, card_count(d), 0x0522, 2) matches Some(q) && dyn_card_block_as::<SpecificConditionsGen2>(d, q + 3, b.specific_conditions),
        card_last_entry(d, card_count(d), 0x0522, 3) matches Some(q) && dyn_card_block_as::<SignatureGen2>(d, q + 3, b.specific_conditions_signature),
        card_last_entry(d, card_count(d), 0x0523, 2) matches Some(q) && dyn_card_block_as::<CardVehicleUnitsUsedGen2>(d, q + 3, b.vehicle_units_used),
        card_last_entry(d, card_count(d), 0x0523, 3) matches Some(q) && dyn_card_block_as::<SignatureGen2>(d, q + 3, b.vehicle_units_used_signature),
        card_last_entry(d, card_count(d), 0x0524, 2) matches Some(q) && dyn_card_block_as::<GNSSAccumulatedDrivingGen2>(d, q + 3, b.gnss_accumulated_driving),
        card_last_entry(d, card_count(d), 0x0524, 3) matches Some(q) && dyn_card_block_as::<SignatureGen2>(d, q + 3, b.gnss_places_signature),
{
}

/// Each block of generation 1 that `process_driver_card_bytes` returns is the
/// block, length included, of the last entry read whose header names its
/// file identifier and type 0 (its signature: type 1).
pub proof fn law_full_card_gen1_blocks_by_entry(d: Seq<u8>, v: crate::card_files::CardData)
    requires
        full_card_as(d, v),
    ensures
        card_last_entry(d, card_count(d), 0x0002, 0) matches Some(q) && v.gen1.card_icc_identification.size == be16(d, q + 3) && card_block_as::<CardIccIdentification>(d, q + 3, v.gen1.card_icc_identification.data),
        card_last_entry(d, card_count(d), 0x0005, 0) matches Some(q) && v.gen1.card_chip_identification.size == be16(d, q + 3) && card_block_as::<CardChipIdentification>(d, q + 3, v.gen1.card_chip_identification.data),
        card_last_entry(d, card_count(d), 0x0501, 0) matches Some(q) && v.gen1.application_identification.size == be16(d, q + 3) && card_block_as::<DriverCardApplicationIdentification>(d, q + 3, v.gen1.application_identification.data),
        card_last_entry(d, card_count(d), 0x0501, 1) matches Some(q) && v.gen1.application_identification_signature.size == be16(d, q + 3) && card_block_as::<Signature>(d, q + 3, v.gen1.application_identification_signature.data),
        card_last_entry(d, card_count(d), 0xC100, 0) matches Some(q) && v.gen1.card_certificate.size == be16(d, q + 3) && card_block_as::<Certificate>(d, q + 3, v.gen1.card_certificate.data),
        card_last_entry(d, card_count(d), 0xC108, 0) matches Some(q) && v.gen1.member_state_certificate.size == be16(d, q + 3) && card_block_as::<Certificate>(d, q + 3, v.gen1.member_state_certificate.data),
        card_last_entry(d, card_count(d), 0x0520, 0) matches Some(q) && v.gen1.identification.size == be16(d, q + 3) && card_block_as::<Identification>(d, q + 3, v.gen1.identification.data),
        card_last_entry(d, card_count(d), 0x0520, 1) matches Some(q) && v.gen1.identification_signature.size == be16(d, q + 3) && card_block_as::<Signature>(d, q + 3, v.gen1.identification_signature.data),
        card_last_entry(d, card_count(d), 0x050E, 0) matches Some(q) && v.gen1.card_download.size == be16(d, q + 3) && card_block_as::<CardDownload>(d, q + 3, v.gen1.card_download.data),
        card_last_entry(d, card_count(d), 0x050E, 1) matches Some(q) && v.gen1.card_download_signature.size == be16(d, q + 3) && card_block_as::<Signature>(d, q + 3, v.gen1.card_download_signature.data),
        card_last_entry(d, card_count(d), 0x0521, 0) matches Some(q) && v.gen1.driver_licence_info.size == be16(d, q + 3) && card_block_as::<CardDrivingLicenceInformation>(d, q + 3, v.gen1.driver_licence_info.data),
        card_last_entry(d, card_count(d), 0x0521, 1) matches Some(q) && v.gen1.driver_licence_info_signature.size == be16(d, q + 3) && card_block_as::<Signature>(d, q + 3, v.gen1.driver_licence_info_signature.data),
        card_last_entry(d, card_count(d), 0x0502, 0) matches Some(q) && v.gen1.events_data.size == be16(d, q + 3) && dyn_card_block_as::<CardEventData>(d, q + 3, v.gen1.events_data.data),
        card_last_entry(d, card_count(d), 0x0502, 1) matches Some(q) && v.gen1.events_data_signature.size == be16(d, q + 3) && card_block_as::<Signature>(d, q + 3, v.gen1.events_data_signature.data),
        card_last_entry(d, card_count(d), 0x0503, 0) matches Some(q) && v.gen1.faults_data.size == be16(d, q + 3) && dyn_card_block_as::<CardFaultData>(d, q + 3, v.gen1.faults_data.data),
        card_last_entry(d, card_count(d), 0x0503, 1) matches Some(q) && v.gen1.faults_data_signature.size == be16(d, q + 3) && card_block_as::<Signature>(d, q + 3, v.gen1.faults_data_signature.data),
        card_last_entry(d, card_count(d), 0x0504, 0) matches Some(q) && v.gen1.driver_activity_data.size == be16(d, q + 3) && card_block_as::<DriverActivityData>(d, q + 3, v.gen1.driver_activity_data.data),
        card_last_entry(d, card_count(d), 0x0504, 1) matches Some(q) && v.gen1.driver_activity_data_signature.size == be16(d, q + 3) && card_block_as::<Signature>(d, q + 3, v.gen1.driver_activity_data_signature.data),
        card_last_entry(d, card_count(d), 0x0505, 0) matches Some(q) && v.gen1.vehicles_used.size == be16(d, q + 3) && dyn_card_block_as::<CardVehiclesUsed>(d, q + 3, v.gen1.vehicles_used.data),
        card_last_entry(d, card_count(d), 0x0505, 1) matches Some(q) && v.gen1.vehicles_used_signature.size == be16(d, q + 3) && card_block_as::<Signature>(d, q + 3, v.gen1.vehicles_used_signature.data),
        card_last_entry(d, card_count(d), 0x0506, 0) matches Some(q) && v.gen1.places.size == be16(d, q + 3) && dyn_card_block_as::<CardPlaceDailyWorkPeriod>(d, q + 3, v.gen1.places.data),
        card_last_entry(d, card_count(d), 0x0506, 1) matches Some(q) && v.gen1.places_signature.size == be16(d, q + 3) && card_block_as::<Signature>(d, q + 3, v.gen1.places_signature.data),
        card_last_entry(d, card_count(d), 0x0507, 0) matches Some(q) && v.gen1.current_usage.size == be16(d, q + 3) && card_block_as::<CurrentUsage>(d, q + 3, v.gen1.current_usage.data),
        card_last_entry(d, card_count(d), 0x0507, 1) matches Some(q) && v.gen1.current_usage_signature.size == be16(d, q + 3) && card_block_as::<Signature>(d, q + 3, v.gen1.current_usage_signature.data),
        card_last_entry(d, card_count(d), 0x0508, 0) matches Some(q) && v.gen1.control_activity_data.size == be16(d, q + 3) && card_block_as::<CardControlActivityDataRecord>(d, q + 3, v.gen1.control_activity_data.data),
        card_last_entry(d, card_count(d), 0x0508, 1) matches Some(q) && v.gen1.control_activity_data_signature.size == be16(d, q + 3) && card_block_as::<Signature>(d, q + 3, v.gen1.control_activity_data_signature.data),
        card_last_entry(d, card_count(d), 0x0522, 0) matches Some(q) && v.gen1.specific_conditions.size == be16(d, q + 3) && dyn_card_block_as::<SpecificConditions>(d, q + 3, v.gen1.specific_conditions.data),
        card_last_entry(d, card_count(d), 0x0522, 1) matches Some(q) && v.gen1.specific_conditions_signature.size == be16(d, q + 3) && card_block_as::<Signature>(d, q + 3, v.gen1.specific_conditions_signature.data),
{
}

/// Each block of generation 2 that `process_driver_card_bytes` returns is the
/// block, length included, of the last entry read whose header names its
/// file identifier and type 2 (its signature: type 3).
pub proof fn law_full_card_gen2_blocks_by_entry(d: Seq<u8>, v: crate::card_files::CardData)
    requires
        full_card_as(d, v),
    ensures
        card_last_entry(d, card_count(d), 0x0002, 2) matches Some(q) && v.gen2.card_icc_identification.size == be16(d, q + 3) && card_block_as::<CardIccIdentificationGen2>(d, q + 3, v.gen2.card_icc_identification.data),
        card_last_entry(d, card_count(d), 0x0005, 2) matches Some(q) && v.gen2.card_chip_identification.size == be16(d, q + 3) && card_block_as::<CardChipIdentification>(d, q + 3, v.gen2.card_chip_identification.data),
        card_last_entry(d, card_count(d), 0x0501, 2) matches Some(q) && v.gen2.application_identification.size == be16(d, q + 3) && card_block_as::<DriverCardApplicationIdentificationGen2>(d, q + 3, v.gen2.application_identification.data),
        card_last_entry(d, card_count(d), 0x0501, 3) matches Some(q) && v.gen2.application_identification_signature.size == be16(d, q + 3) && dyn_card_block_as::<SignatureGen2>(d, q + 3, v.gen2.application_identification_signature.data),
        card_last_entry(d, card_count(d), 0xC101, 2) matches Some(q) && v.gen2.card_sign_certificate.size == be16(d, q + 3) && dyn_card_block_as::<CertificateGen2>(d, q + 3, v.gen2.card_sign_certificate.data),
        card_last_entry(d, card_count(d), 0xC108, 2) matches Some(q) && v.gen2.ca_certificate.size == be16(d, q + 3) && dyn_card_block_as::<CertificateGen2>(d, q + 3, v.gen2.ca_certificate.data),
        card_last_entry(d, card_count(d), 0xC109, 2) matches Some(q) && v.gen2.link_certificate.size == be16(d, q + 3) && dyn_card_block_as::<CertificateGen2>(d, q + 3, v.gen2.link_certificate.data),
        card_last_entry(d, card_count(d), 0x0520, 2) matches Some(q) && v.gen2.identification.size == be16(d, q + 3) && card_block_as::<Identification>(d, q + 3, v.gen2.identification.data),
        card_last_entry(d, card_count(d), 0x0520, 3) matches Some(q) && v.gen2.identification_signature.size == be16(d, q + 3) && dyn_card_block_as::<SignatureGen2>(d, q + 3, v.gen2.identification_signature.data),
        card_last_entry(d, card_count(d), 0x050E, 2) matches Some(q) && v.gen2.card_download.size == be16(d, q + 3) && card_block_as::<CardDownload>(d, q + 3, v.gen2.card_download.data),
        card_last_entry(d, card_count(d), 0x050E, 3) matches Some(q) && v.gen2.card_download_signature.size == be16(d, q + 3) && dyn_card_block_as::<SignatureGen2>(d, q + 3, v.gen2.card_download_signature.data),
        card_last_entry(d, card_count(d), 0x0521, 2) matches Some(q) && v.gen2.driver_licence_information.size == be16(d, q + 3) && card_block_as::<CardDrivingLicenceInformation>(d, q + 3, v.gen2.driver_licence_information.data),
        card_last_entry(d, card_count(d), 0x0521, 3) matches Some(q) && v.gen2.driver_licence_info_signature.size == be16(d, q + 3) && dyn_card_block_as::<SignatureGen2>(d, q + 3, v.gen2.driver_licence_info_signature.data),
        card_last_entry(d, card_count(d), 0x0502, 2) matches Some(q) && v.gen2.events_data.size == be16(d, q + 3) && dyn_card_block_as::<CardEventDataGen2>(d, q + 3, v.gen2.events_data.data),
        card_last_entry(d, card_count(d), 0x0502, 3) matches Some(q) && v.gen2.events_data_signature.size == be16(d, q + 3) && dyn_card_block_as::<SignatureGen2>(d, q + 3, v.gen2.events_data_signature.data),
        card_last_entry(d, card_count(d), 0x0503, 2) matches Some(q) && v.gen2.faults_data.size == be16(d, q + 3) && card_block_as::<CardFaultDataGen2>(d, q + 3, v.gen2.faults_data.data),
        card_last_entry(d, card_count(d), 0x0503, 3) matches Some(q) && v.gen2.faults_data_signature.size == be16(d, q + 3) && dyn_card_block_as::<SignatureGen2>(d, q + 3, v.gen2.faults_data_signature.data),
        card_last_entry(d, card_count(d), 0x0504, 2) matches Some(q) && v.gen2.driver_activity_data.size == be16(d, q + 3) && card_block_as::<DriverActivityData>(d, q + 3, v.gen2.driver_activity_data.data),
        card_last_entry(d, card_count(d), 0x0504, 3) matches Some(q) && v.gen2.driver_activity_data_signature.size == be16(d, q + 3) && dyn_card_block_as::<SignatureGen2>(d, q + 3, v.gen2.driver_activity_data_signature.data),
        card_last_entry(d, card_count(d), 0x0505, 2) matches Some(q) && v.gen2.vehicles_used.size == be16(d, q + 3) && dyn_card_block_as::<CardVehiclesUsedGen2>(d, q + 3, v.gen2.vehicles_used.data),
        card_last_entry(d, card_count(d), 0x0505, 3) matches Some(q) && v.gen2.vehicles_used_signature.size == be16(d, q + 3) && dyn_card_block_as::<SignatureGen2>(d, q + 3, v.gen2.vehicles_used_signature.data),
        card_last_entry(d, card_count(d), 0x0506, 2) matches Some(q) && v.gen2.places.size == be16(d, q + 3) && dyn_card_block_as::<CardPlaceDailyWorkPeriodGen2>(d, q + 3, v.gen2.places.data),
        card_last_entry(d, card_count(d), 0x0506, 3) matches Some(q) && v.gen2.places_signature.size == be16(d, q + 3) && dyn_card_block_as::<SignatureGen2>(d, q + 3, v.gen2.places_signature.data),
        card_last_entry(d, card_count(d), 0x0507, 2) matches Some(q) && v.gen2.current_usage.size == be16(d, q + 3) && card_block_as::<CurrentUsage>(d, q + 3, v.gen2.current_usage.data),
        card_last_entry(d, card_count(d), 0x0507, 3) matches Some(q) && v.gen2.current_usage_signature.size == be16(d, q + 3) && dyn_card_block_as::<SignatureGen2>(d, q + 3, v.gen2.current_usage_signature.data),
        card_last_entry(d, card_count(d), 0x0508, 2) matches Some(q) && v.gen2.control_activity_data.size == be16(d, q + 3) && card_block_as::<CardControlActivityDataRecordGen2>(d, q + 3, v.gen2.control_activity_data.data),
        card_last_entry(d, card_count(d), 0x0508, 3) matches Some(q) && v.gen2.control_activity_data_signature.size == be16(d, q + 3) && dyn_card_block_as::<SignatureGen2>(d, q + 3, v.gen2.control_activity_data_signature.data),
        card_last_entry(d, card_count(d), 0x0522, 2) matches Some(q) && v.gen2.specific_conditions.size == be16(d, q + 3) && dyn_card_block_as::<SpecificConditionsGen2>(d, q + 3, v.gen2.specific_conditions.data),
        card_last_entry(d, card_count(d), 0x0522, 3) matches Some(q) && v.gen2.specific_conditions_signature.size == be16(d, q + 3) && dyn_card_block_as::<SignatureGen2>(d, q + 3, v.gen2.specific_conditions_signature.data),
        card_last_entry(d, card_count(d), 0x0523, 2) matches Some(q) && v.gen2.vehicle_units_used.size == be16(d, q + 3) && dyn_card_block_as::<CardVehicleUnitsUsedGen2>(d, q + 3, v.gen2.vehicle_units_used.data),
        card_last_entry(d, card_count(d), 0x0523, 3) matches Some(q) && v.gen2.vehicle_units_used_signature.size == be16(d, q + 3) && dyn_card_block_as::<SignatureGen2>(d, q + 3, v.gen2.vehicle_units_used_signature.data),
        card_last_entry(d, card_count(d), 0x0524, 2) matches Some(q) && v.gen2.gnss_accumulated_driving.size == be16(d, q + 3) && dyn_card_block_as::<GNSSAccumulatedDrivingGen2>(d, q + 3, v.gen2.gnss_accumulated_driving.data),
        card_last_entry(d, card_count(d), 0x0524, 3) matches Some(q) && v.gen2.gnss_places_signature.size == be16(d, q + 3) && dyn_card_block_as::<SignatureGen2>(d, q + 3, v.gen2.gnss_places_signature.data),
{
}

/// The blocks of a generation 1 download that the vehicle unit
/// parser returns: the overview is the last block whose header names TREP
/// 0x01, and every other list holds, in order, the blocks whose headers name
/// its TREP.
pub proof fn law_vu_gen1_blocks_by_trep(d: Seq<u8>, v: VuData)
    requires
        vu_data_as(d, v),
        v is Gen1,
    ensures
        v matches VuData::Gen1(b) && vu_entries_with(1, d, vu_count(1, d), 0x01).len() > 0 && VuOverviewBlock::parsed_as(d, vu_entries_with(1, d, vu_count(1, d), 0x01).last() + 2, b.vu_overview),
        v matches VuData::Gen1(b) && b.vu_activities@.len() == vu_entries_with(1, d, vu_count(1, d), 0x02).len(),
        forall|i: int| #![trigger vu_entries_with(1, d, vu_count(1, d), 0x02)[i]] v matches VuData::Gen1(b) ==> (0 <= i < b.vu_activities@.len() ==> VuActivitiesBlock::parsed_as(d, vu_entries_with(1, d, vu_count(1, d), 0x02)[i] + 2, b.vu_activities@[i])),
        v matches VuData::Gen1(b) && b.vu_events_and_faults@.len() == vu_entries_with(1, d, vu_count(1, d), 0x03).len(),
        forall|i: int| #![trigger vu_entries_with(1, d, vu_count(1, d), 0x03)[i]] v matches VuData::Gen1(b) ==> (0 <= i < b.vu_events_and_faults@.len() ==> VuEventsAndFaultsBlock::parsed_as(d, vu_entries_with(1, d, vu_count(1, d), 0x03)[i] + 2, b.vu_events_and_faults@[i])),
        v matches VuData::Gen1(b) && b.vu_detailed_speed@.len() == vu_entries_with(1, d, vu_count(1, d), 0x04).len(),
        forall|i: int| #![trigger vu_entries_with(1, d, vu_count(1, d), 0x04)[i]] v matches VuData::Gen1(b) ==> (0 <= i < b.vu_detailed_speed@.len() ==> VuDetailedSpeedData::parsed_as(d, vu_entries_with(1, d, vu_count(1, d), 0x04)[i] + 2, b.vu_detailed_speed@[i])),
        v matches VuData::Gen1(b) && b.vu_company_locks@.len() == vu_entries_with(1, d, vu_count(1, d), 0x05).len(),
        forall|i: int| #![trigger vu_entries_with(1, d, vu_count(1, d), 0x05)[i]] v matches VuData::Gen1(b) ==> (0 <= i < b.vu_company_locks@.len() ==> VuCompanyLocksBlock::parsed_as(d, vu_entries_with(1, d, vu_count(1, d), 0x05)[i] + 2, b.vu_company_locks@[i])),
{
}

/// The blocks of a generation 2 download that the vehicle unit
/// parser returns: the overview is the last block whose header names TREP
/// 0x21, and every other list holds, in order, the blocks whose headers name
/// its TREP.
pub proof fn law_vu_gen2_blocks_by_trep(d: Seq<u8>, v: VuData)
    requires
        vu_data_as(d, v),
        v is Gen2,
    ensures
        v matches VuData::Gen2(b) && vu_entries_with(2, d, vu_count(2, d), 0x21).len() > 0 && VuOverviewBlockGen2::parsed_as(d, vu_entries_with(2, d, vu_count(2, d), 0x21).last() + 2, b.vu_overview),
        v matches VuData::Gen2(b) && b.vu_activities@.len() == vu_entries_with(2, d, vu_count(2, d), 0x22).len(),
        forall|i: int| #![trigger vu_entries_with(2, d, vu_count(2, d), 0x22)[i]] v matches VuData::Gen2(b) ==> (0 <= i < b.vu_activities@.len() ==> VuActivitiesBlockGen2::parsed_as(d, vu_entries_with(2, d, vu_count(2, d), 0x22)[i] + 2, b.vu_activities@[i])),
        v matches VuData::Gen2(b) && b.vu_events_and_faults@.len() == vu_entries_with(2, d, vu_count(2, d), 0x23).len(),
        forall|i: int| #![trigger vu_entries_with(2, d, vu_count(2, d), 0x23)[i]] v matches VuData::Gen2(b) ==> (0 <= i < b.vu_events_and_faults@.len() ==> VuEventsAndFaultsBlockGen2::parsed_as(d, vu_entries_with(2, d, vu_count(2, d), 0x23)[i] + 2, b.vu_events_and_faults@[i])),
        v matches VuData::Gen2(b) && b.vu_detailed_speed@.len() == vu_entries_with(2, d, vu_count(2, d), 0x24).len(),
        forall|i: int| #![trigger vu_entries_with(2, d, vu_count(2, d), 0x24)[i]] v matches VuData::Gen2(b) ==> (0 <= i < b.vu_detailed_speed@.len() ==> VuSpeedBlockGen2::parsed_as(d, vu_entries_with(2, d, vu_count(2, d), 0x24)[i] + 2, b.vu_detailed_speed@[i])),
        v matches VuData::Gen2(b) && b.vu_company_locks@.len() == vu_entries_with(2, d, vu_count(2, d), 0x25).len(),
        forall|i: int| #![trigger vu_entries_with(2, d, vu_count(2, d), 0x25)[i]] v matches VuData::Gen2(b) ==> (0 <= i < b.vu_company_locks@.len() ==> VuCompanyLocksBlockGen2::parsed_as(d, vu_entries_with(2, d, vu_count(2, d), 0x25)[i] + 2, b.vu_company_locks@[i])),
{
}

/// The blocks of a generation 2 version 2 download that the vehicle unit
/// parser returns: the overview is the last block whose header names TREP
/// 0x31, and every other list holds, in order, the blocks whose headers name
/// its TREP.
pub proof fn law_vu_gen2v2_blocks_by_trep(d: Seq<u8>, v: VuData)
    requires
        vu_data_as(d, v),
        v is Gen2V2,
    ensures
        v matches VuData::Gen2V2(b) && vu_entries_with(3, d, vu_count(3, d), 0x31).len() > 0 && VuOverviewBlockGen2V2::parsed_as(d, vu_entries_with(3, d, vu_count(3, d), 0x31).last() + 2, b.vu_overview),
        v matches VuData::Gen2V2(b) && b.vu_activities@.len() == vu_entries_with(3, d, vu_count(3, d), 0x32).len(),
        forall|i: int| #![trigger vu_entries_with(3, d, vu_count(3, d), 0x32)[i]] v matches VuData::Gen2V2(b) ==> (0 <= i < b.vu_activities@.len() ==> VuActivitiesBlockGen2V2::parsed_as(d, vu_entries_with(3, d, vu_count(3, d), 0x32)[i] + 2, b.vu_activities@[i])),
        v matches VuData::Gen2V2(b) && b.vu_events_and_faults@.len() == vu_entries_with(3, d, vu_count(3, d), 0x33).len(),
        forall|i: int| #![trigger vu_entries_with(3, d, vu_count(3, d), 0x33)[i]] v matches VuData::Gen2V2(b) ==> (0 <= i < b.vu_events_and_faults@.len() ==> VuEventsAndFaultsBlockGen2::parsed_as(d, vu_entries_with(3, d, vu_count(3, d), 0x33)[i] + 2, b.vu_events_and_faults@[i])),
        v matches VuData::Gen2V2(b) && b.vu_company_locks@.len() == vu_entries_with(3, d, vu_count(3, d), 0x35).len(),
        forall|i: int| #![trigger vu_entries_with(3, d, vu_count(3, d), 0x35)[i]] v matches VuData::Gen2V2(b) ==> (0 <= i < b.vu_company_locks@.len() ==> VuCompanyLocksGen2V2::parsed_as(d, vu_entries_with(3, d, vu_count(3, d), 0x35)[i] + 2, b.vu_company_locks@[i])),
{
}

/// The blocks that `process_vu_bytes` returns for a download that starts with
/// TREP 0x21: the overview is the last block whose header names TREP 0x21,
/// and every other list holds, in order, the blocks whose headers name its TREP.
pub proof fn law_processed_gen2blocks_by_trep(d: Seq<u8>, v: crate::vu_files::VuData)
    requires
        vu_files_as(d, v),
        v is VuGen2Blocks,
    ensures
        v matches crate::vu_files::VuData::VuGen2Blocks(b) && full_entries_with(2, d, full_count(2, d), 0x21).len() > 0 && VuOverviewBlockGen2::parsed_as(d, full_entries_with(2, d, full_count(2, d), 0x21).last() + 2, b.vu_overview),
        v matches crate::vu_files::VuData::VuGen2Blocks(b) && b.vu_activities@.len() == full_entries_with(2, d, full_count(2, d), 0x22).len(),
        forall|i: int| #![trigger full_entries_with(2, d, full_count(2, d), 0x22)[i]] v matches crate::vu_files::VuData::VuGen2Blocks(b) ==> (0 <= i < b.vu_activities@.len() ==> VuActivitiesBlockGen2::parsed_as(d, full_entries_with(2, d, full_count(2, d), 0x22)[i] + 2, b.vu_activities@[i])),
        v matches crate::vu_files::VuData::VuGen2Blocks(b) && b.vu_events_and_faults@.len() == full_entries_with(2, d, full_count(2, d), 0x23).len(),
        forall|i: int| #![trigger full_entries_with(2, d, full_count(2, d), 0x23)[i]] v matches crate::vu_files::VuData::VuGen2Blocks(b) ==> (0 <= i < b.vu_events_and_faults@.len() ==> VuEventsAndFaultsBlockGen2::parsed_as(d, full_entries_with(2, d, full_count(2, d), 0x23)[i] + 2, b.vu_events_and_faults@[i])),
        v matches crate::vu_files::VuData::VuGen2Blocks(b) && b.vu_detailed_speed@.len() == full_entries_with(2, d, full_count(2, d), 0x24).len(),
        forall|i: int| #![trigger full_entries_with(2, d, full_count(2, d), 0x24)[i]] v matches crate::vu_files::VuData::VuGen2Blocks(b) ==> (0 <= i < b.vu_detailed_speed@.len() ==> VuSpeedBlockGen2::parsed_as(d, full_entries_with(2, d, full_count(2, d), 0x24)[i] + 2, b.vu_detailed_speed@[i])),
        v matches crate::vu_files::VuData::VuGen2Blocks(b) && b.vu_company_locks@.len() == full_entries_with(2, d, full_count(2, d), 0x25).len(),
        forall|i: int| #![trigger full_entries_with(2, d, full_count(2, d), 0x25)[i]] v matches crate::vu_files::VuData::VuGen2Blocks(b) ==> (0 <= i < b.vu_company_locks@.len() ==> VuCompanyLocksBlockGen2::parsed_as(d, full_entries_with(2, d, full_count(2, d), 0x25)[i] + 2, b.vu_company_locks@[i])),
{
}

/// The blocks that `process_vu_bytes` returns for a download that starts with
/// TREP 0x31: the overview is the last block whose header names TREP 0x31,
/// and every other list holds, in order, the blocks whose headers name its TREP.
pub proof fn law_processed_gen2v2blocks_by_trep(d: Seq<u8>, v: crate::vu_files::VuData)
    requires
        vu_files_as(d, v),
        v is VuGen2V2Blocks,
    ensures
        v matches crate::vu_files::VuData::VuGen2V2Blocks(b) && full_entries_with(3, d, full_count(3, d), 0x31).len() > 0 && VuOverviewBlockGen2V2::parsed_as(d, full_entries_with(3, d, full_count(3, d), 0x31).last() + 2, b.vu_overview),
{
}

} // verus!
