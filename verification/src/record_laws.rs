//! Laws of the record layouts: at which byte of a record each field is read,
//! in the order the regulation gives the fields.
use crate::cursor::{optional_as, Parse, ParseDyn};
use vstd::prelude::*;

verus! {

/// The fields of a `CardBorderCrossingRecord` (17 bytes) in their order and at their byte offsets.
pub proof fn law_card_border_crossing_record_layout(d: Seq<u8>, p: int, v: crate::dt::gen2v2::CardBorderCrossingRecord)
    requires
        0 <= p && p + 17 <= d.len(),
        crate::dt::gen2v2::CardBorderCrossingRecord::parse_ok(d, p),
        crate::dt::gen2v2::CardBorderCrossingRecord::parsed_as(d, p, v),
    ensures
        crate::dt::external::NationNumeric::parsed_as(d.subrange(p, p + 17), 0, v.country_left),
        crate::dt::external::NationNumeric::parsed_as(d.subrange(p, p + 17), 1, v.country_entered),
        crate::dt::gen2v2::GNSSPlaceAuthRecord::parsed_as(d.subrange(p, p + 17), 2, v.gnss_place_auth_record),
        crate::dt::OdometerShort::parsed_as(d.subrange(p, p + 17), 14, v.vehicle_odometer_value),
{
}

/// The fields of a `CardControlActivityDataRecord` (46 bytes) in their order and at their byte offsets.
pub proof fn law_card_control_activity_data_record_layout(d: Seq<u8>, p: int, v: crate::dt::gen1::CardControlActivityDataRecord)
    requires
        0 <= p && p + 46 <= d.len(),
        crate::dt::gen1::CardControlActivityDataRecord::parse_ok(d, p),
        crate::dt::gen1::CardControlActivityDataRecord::parsed_as(d, p, v),
    ensures
        crate::dt::gen1::ControlType::parsed_as(d, p, v.control_type),
        crate::dt::TimeReal::parsed_as(d, p + 1, v.control_time),
        crate::dt::gen1::FullCardNumber::parsed_as(d, p + 5, v.control_card_number),
        crate::dt::VehicleRegistrationIdentification::parsed_as(d, p + 23, v.control_vehicle_registration),
        crate::dt::TimeReal::parsed_as(d, p + 38, v.control_download_period_begin),
        crate::dt::TimeReal::parsed_as(d, p + 42, v.control_download_period_end),
{
}

/// The fields of a `CardControlActivityDataRecordGen2` (46 bytes) in their order and at their byte offsets.
pub proof fn law_card_control_activity_data_record_gen2_layout(d: Seq<u8>, p: int, v: crate::dt::gen2::CardControlActivityDataRecordGen2)
    requires
        0 <= p && p + 46 <= d.len(),
        crate::dt::gen2::CardControlActivityDataRecordGen2::parse_ok(d, p),
        crate::dt::gen2::CardControlActivityDataRecordGen2::parsed_as(d, p, v),
    ensures
        crate::dt::gen2::ControlTypeGen2::parsed_as(d.subrange(p, p + 46), 0, v.control_type),
        optional_as::<crate::dt::TimeReal>(d.subrange(p, p + 46), 1, v.control_time),
        crate::dt::gen2::FullCardNumberGen2::parsed_as(d.subrange(p, p + 46), 5, v.control_card_number),
        crate::dt::VehicleRegistrationIdentification::parsed_as(d.subrange(p, p + 46), 23, v.control_vehicle_registration),
        optional_as::<crate::dt::TimeReal>(d.subrange(p, p + 46), 38, v.control_download_period_begin),
        optional_as::<crate::dt::TimeReal>(d.subrange(p, p + 46), 42, v.control_download_period_end),
{
}

/// The fields of a `CardCurrentUse` (19 bytes) in their order and at their byte offsets.
pub proof fn law_card_current_use_layout(d: Seq<u8>, p: int, v: crate::dt::CardCurrentUse)
    requires
        0 <= p && p + 19 <= d.len(),
        crate::dt::CardCurrentUse::parse_ok(d, p),
        crate::dt::CardCurrentUse::parsed_as(d, p, v),
    ensures
        crate::dt::TimeReal::parsed_as(d, p, v.session_open_time),
        crate::dt::VehicleRegistrationIdentification::parsed_as(d, p + 4, v.session_open_vehicle),
{
}

/// The fields of a `CardDrivingLicenceInformation` (53 bytes) in their order and at their byte offsets.
pub proof fn law_card_driving_licence_information_layout(d: Seq<u8>, p: int, v: crate::dt::CardDrivingLicenceInformation)
    requires
        0 <= p && p + 53 <= d.len(),
        crate::dt::CardDrivingLicenceInformation::parse_ok(d, p),
        crate::dt::CardDrivingLicenceInformation::parsed_as(d, p, v),
    ensures
        crate::dt::Name::parsed_as(d, p, v.driving_licence_issuing_authority),
        crate::dt::external::NationNumeric::parsed_as(d, p + 36, v.driving_licence_issuing_nation),
        crate::dt::IA5String::dyn_as(d, p + 37, 16, v.driving_licence_number),
{
}

/// The fields of a `CardEventRecord` (24 bytes) in their order and at their byte offsets.
pub proof fn law_card_event_record_layout(d: Seq<u8>, p: int, v: crate::dt::gen1::CardEventRecord)
    requires
        0 <= p && p + 24 <= d.len(),
        crate::dt::gen1::CardEventRecord::parse_ok(d, p),
        crate::dt::gen1::CardEventRecord::parsed_as(d, p, v),
    ensures
        crate::dt::gen1::EventFaultType::parsed_as(d.subrange(p, p + 24), 0, v.event_type),
        crate::dt::TimeReal::parsed_as(d.subrange(p, p + 24), 1, v.event_begin_time),
        crate::dt::TimeReal::parsed_as(d.subrange(p, p + 24), 5, v.event_end_time),
        crate::dt::VehicleRegistrationIdentification::parsed_as(d.subrange(p, p + 24), 9, v.event_vehicle_registration),
{
}

/// The fields of a `CardEventRecordGen2` (24 bytes) in their order and at their byte offsets.
pub proof fn law_card_event_record_gen2_layout(d: Seq<u8>, p: int, v: crate::dt::gen2::CardEventRecordGen2)
    requires
        0 <= p && p + 24 <= d.len(),
        crate::dt::gen2::CardEventRecordGen2::parse_ok(d, p),
        crate::dt::gen2::CardEventRecordGen2::parsed_as(d, p, v),
    ensures
        crate::dt::gen2::EventFaultTypeGen2::parsed_as(d.subrange(p, p + 24), 0, v.event_type),
        crate::dt::TimeReal::parsed_as(d.subrange(p, p + 24), 1, v.event_begin_time),
        crate::dt::TimeReal::parsed_as(d.subrange(p, p + 24), 5, v.event_end_time),
        crate::dt::VehicleRegistrationIdentification::parsed_as(d.subrange(p, p + 24), 9, v.event_vehicle_registration),
{
}

/// The fields of a `CardFaultRecord` (24 bytes) in their order and at their byte offsets.
pub proof fn law_card_fault_record_layout(d: Seq<u8>, p: int, v: crate::dt::gen1::CardFaultRecord)
    requires
        0 <= p && p + 24 <= d.len(),
        crate::dt::gen1::CardFaultRecord::parse_ok(d, p),
        crate::dt::gen1::CardFaultRecord::parsed_as(d, p, v),
    ensures
        crate::dt::gen1::EventFaultType::parsed_as(d.subrange(p, p + 24), 0, v.fault_type),
        crate::dt::TimeReal::parsed_as(d.subrange(p, p + 24), 1, v.fault_begin_time),
        crate::dt::TimeReal::parsed_as(d.subrange(p, p + 24), 5, v.fault_end_time),
        crate::dt::VehicleRegistrationIdentification::parsed_as(d.subrange(p, p + 24), 9, v.fault_vehicle_registration),
{
}

/// The fields of a `CardFaultRecordGen2` (24 bytes) in their order and at their byte offsets.
pub proof fn law_card_fault_record_gen2_layout(d: Seq<u8>, p: int, v: crate::dt::gen2::CardFaultRecordGen2)
    requires
        0 <= p && p + 24 <= d.len(),
        crate::dt::gen2::CardFaultRecordGen2::parse_ok(d, p),
        crate::dt::gen2::CardFaultRecordGen2::parsed_as(d, p, v),
    ensures
        crate::dt::gen2::EventFaultTypeGen2::parsed_as(d.subrange(p, p + 24), 0, v.fault_type),
        crate::dt::TimeReal::parsed_as(d.subrange(p, p + 24), 1, v.fault_begin_time),
        crate::dt::TimeReal::parsed_as(d.subrange(p, p + 24), 5, v.fault_end_time),
        crate::dt::VehicleRegistrationIdentification::parsed_as(d.subrange(p, p + 24), 9, v.fault_vehicle_registration),
{
}

/// The fields of a `CardIccIdentification` (25 bytes) in their order and at their byte offsets.
pub proof fn law_card_icc_identification_layout(d: Seq<u8>, p: int, v: crate::dt::gen1::CardIccIdentification)
    requires
        0 <= p && p + 25 <= d.len(),
        crate::dt::gen1::CardIccIdentification::parse_ok(d, p),
        crate::dt::gen1::CardIccIdentification::parsed_as(d, p, v),
    ensures
        u8::parsed_as(d, p, v.clock_stop),
        crate::dt::gen1::ExtendedSerialNumber::parsed_as(d, p + 1, v.card_extended_serial_number),
        crate::dt::CardApprovalNumber::parsed_as(d, p + 9, v.card_approval_number),
        crate::dt::external::ManufacturerCode::parsed_as(d, p + 17, v.card_personaliser_id),
        crate::dt::EmbedderIcAssemblerId::parsed_as(d, p + 18, v.embedder_ic_assembler_id),
{
}

/// The fields of a `CardIccIdentificationGen2` (25 bytes) in their order and at their byte offsets.
pub proof fn law_card_icc_identification_gen2_layout(d: Seq<u8>, p: int, v: crate::dt::gen2::CardIccIdentificationGen2)
    requires
        0 <= p && p + 25 <= d.len(),
        crate::dt::gen2::CardIccIdentificationGen2::parse_ok(d, p),
        crate::dt::gen2::CardIccIdentificationGen2::parsed_as(d, p, v),
    ensures
        u8::parsed_as(d, p, v.clock_stop),
        crate::dt::gen2::ExtendedSerialNumberGen2::parsed_as(d, p + 1, v.card_extended_serial_number),
        crate::dt::CardApprovalNumber::parsed_as(d, p + 9, v.card_approval_number),
        crate::dt::external::ManufacturerCode::parsed_as(d, p + 17, v.card_personaliser_id),
        crate::dt::EmbedderIcAssemblerId::parsed_as(d, p + 18, v.embedder_ic_assembler_id),
{
}

/// The fields of a `CardIdentification` (65 bytes) in their order and at their byte offsets.
pub proof fn law_card_identification_layout(d: Seq<u8>, p: int, v: crate::dt::CardIdentification)
    requires
        0 <= p && p + 65 <= d.len(),
        crate::dt::CardIdentification::parse_ok(d, p),
        crate::dt::CardIdentification::parsed_as(d, p, v),
    ensures
        crate::dt::external::NationNumeric::parsed_as(d, p, v.card_issuing_member_state),
        crate::dt::Name::parsed_as(d, p + 17, v.card_issuing_authority_name),
        crate::dt::TimeReal::parsed_as(d, p + 53, v.card_issue_date),
        crate::dt::TimeReal::parsed_as(d, p + 57, v.card_validity_begin),
        crate::dt::TimeReal::parsed_as(d, p + 61, v.card_expiry_date),
{
}

/// The fields of a `CardLoadTypeEntryRecord` (5 bytes) in their order and at their byte offsets.
pub proof fn law_card_load_type_entry_record_layout(d: Seq<u8>, p: int, v: crate::dt::gen2v2::CardLoadTypeEntryRecord)
    requires
        0 <= p && p + 5 <= d.len(),
        crate::dt::gen2v2::CardLoadTypeEntryRecord::parse_ok(d, p),
        crate::dt::gen2v2::CardLoadTypeEntryRecord::parsed_as(d, p, v),
    ensures
        crate::dt::TimeReal::parsed_as(d, p, v.time_stamp),
        crate::dt::gen2v2::LoadType::parsed_as(d, p + 4, v.load_type_entered),
{
}

/// The fields of a `CardLoadUnloadRecord` (20 bytes) in their order and at their byte offsets.
pub proof fn law_card_load_unload_record_layout(d: Seq<u8>, p: int, v: crate::dt::gen2v2::CardLoadUnloadRecord)
    requires
        0 <= p && p + 20 <= d.len(),
        crate::dt::gen2v2::CardLoadUnloadRecord::parse_ok(d, p),
        crate::dt::gen2v2::CardLoadUnloadRecord::parsed_as(d, p, v),
    ensures
        crate::dt::TimeReal::parsed_as(d, p, v.time_stamp),
        crate::dt::gen2v2::OperationType::parsed_as(d, p + 4, v.operation_type),
        crate::dt::gen2v2::GNSSPlaceAuthRecord::parsed_as(d, p + 5, v.gnss_place_auth_record),
        crate::dt::OdometerShort::parsed_as(d, p + 17, v.vehicle_odometer_value),
{
}

/// The fields of a `CardVehicleRecord` (31 bytes) in their order and at their byte offsets.
pub proof fn law_card_vehicle_record_layout(d: Seq<u8>, p: int, v: crate::dt::gen1::CardVehicleRecord)
    requires
        0 <= p && p + 31 <= d.len(),
        crate::dt::gen1::CardVehicleRecord::parse_ok(d, p),
        crate::dt::gen1::CardVehicleRecord::parsed_as(d, p, v),
    ensures
        crate::dt::OdometerShort::parsed_as(d.subrange(p, p + 31), 0, v.vehicle_odometer_begin),
        crate::dt::OdometerShort::parsed_as(d.subrange(p, p + 31), 3, v.vehicle_odometer_end),
        crate::dt::TimeReal::parsed_as(d.subrange(p, p + 31), 6, v.vehicle_first_use),
        crate::dt::TimeReal::parsed_as(d.subrange(p, p + 31), 10, v.vehicle_last_use),
        crate::dt::VehicleRegistrationIdentification::parsed_as(d.subrange(p, p + 31), 14, v.vehicle_registration),
        crate::dt::VuDataBlockCounter::parsed_as(d.subrange(p, p + 31), 29, v.vu_data_block_counter),
{
}

/// The fields of a `CardVehicleRecordGen2` (48 bytes) in their order and at their byte offsets.
pub proof fn law_card_vehicle_record_gen2_layout(d: Seq<u8>, p: int, v: crate::dt::gen2::CardVehicleRecordGen2)
    requires
        0 <= p && p + 48 <= d.len(),
        crate::dt::gen2::CardVehicleRecordGen2::parse_ok(d, p),
        crate::dt::gen2::CardVehicleRecordGen2::parsed_as(d, p, v),
    ensures
        crate::dt::OdometerShort::parsed_as(d.subrange(p, p + 48), 0, v.vehicle_odometer_begin),
        crate::dt::OdometerShort::parsed_as(d.subrange(p, p + 48), 3, v.vehicle_odometer_end),
        crate::dt::TimeReal::parsed_as(d.subrange(p, p + 48), 6, v.vehicle_first_use),
        crate::dt::TimeReal::parsed_as(d.subrange(p, p + 48), 10, v.vehicle_last_use),
        crate::dt::VehicleRegistrationIdentification::parsed_as(d.subrange(p, p + 48), 14, v.vehicle_registration),
        crate::dt::VuDataBlockCounter::parsed_as(d.subrange(p, p + 48), 29, v.vu_data_block_counter),
        crate::dt::VehicleIdentificationNumber::parsed_as(d.subrange(p, p + 48), 31, v.vehicle_identification_number),
{
}

/// The fields of a `CardVehicleUnitRecordGen2` (10 bytes) in their order and at their byte offsets.
pub proof fn law_card_vehicle_unit_record_gen2_layout(d: Seq<u8>, p: int, v: crate::dt::gen2::CardVehicleUnitRecordGen2)
    requires
        0 <= p && p + 10 <= d.len(),
        crate::dt::gen2::CardVehicleUnitRecordGen2::parse_ok(d, p),
        crate::dt::gen2::CardVehicleUnitRecordGen2::parsed_as(d, p, v),
    ensures
        crate::dt::TimeReal::parsed_as(d.subrange(p, p + 10), 0, v.time_stamp),
        crate::dt::external::ManufacturerCode::parsed_as(d.subrange(p, p + 10), 4, v.manufacturer_code),
        u8::parsed_as(d.subrange(p, p + 10), 5, v.device_id),
        crate::dt::VuSoftwareVersion::parsed_as(d.subrange(p, p + 10), 6, v.vu_software_version),
{
}

/// The fields of a `DriverCardApplicationIdentification` (10 bytes) in their order and at their byte offsets.
pub proof fn law_driver_card_application_identification_layout(d: Seq<u8>, p: int, v: crate::dt::gen1::DriverCardApplicationIdentification)
    requires
        0 <= p && p + 10 <= d.len(),
        crate::dt::gen1::DriverCardApplicationIdentification::parse_ok(d, p),
        crate::dt::gen1::DriverCardApplicationIdentification::parsed_as(d, p, v),
    ensures
        crate::dt::gen1::EquipmentType::parsed_as(d, p, v.type_of_tachograph_card_id),
        u8::parsed_as(d, p + 3, v.no_of_events_per_type),
        u8::parsed_as(d, p + 4, v.no_of_faults_per_type),
        u16::parsed_as(d, p + 5, v.activity_structure_length),
        u16::parsed_as(d, p + 7, v.no_of_card_vehicle_records),
        u8::parsed_as(d, p + 9, v.no_of_card_place_records),
{
}

/// The fields of a `DriverCardApplicationIdentificationGen2` (17 bytes) in their order and at their byte offsets.
pub proof fn law_driver_card_application_identification_gen2_layout(d: Seq<u8>, p: int, v: crate::dt::gen2::DriverCardApplicationIdentificationGen2)
    requires
        0 <= p && p + 17 <= d.len(),
        crate::dt::gen2::DriverCardApplicationIdentificationGen2::parse_ok(d, p),
        crate::dt::gen2::DriverCardApplicationIdentificationGen2::parsed_as(d, p, v),
    ensures
        crate::dt::gen2::EquipmentTypeGen2::parsed_as(d, p, v.type_of_tachograph_card_id),
        crate::dt::CardStructureVersion::parsed_as(d, p + 1, v.card_structure_version),
        u8::parsed_as(d, p + 3, v.no_of_events_per_type),
        u8::parsed_as(d, p + 4, v.no_of_faults_per_type),
        u16::parsed_as(d, p + 5, v.activity_structure_length),
        u16::parsed_as(d, p + 7, v.no_of_card_vehicle_records),
        u16::parsed_as(d, p + 9, v.no_of_card_place_records),
        u16::parsed_as(d, p + 11, v.no_of_gnss_ad_records),
        u16::parsed_as(d, p + 13, v.no_of_specific_condition_records),
        u16::parsed_as(d, p + 15, v.no_of_card_vehicle_unit_records),
{
}

/// The fields of a `DriverCardApplicationIdentificationGen2V2` (10 bytes) in their order and at their byte offsets.
pub proof fn law_driver_card_application_identification_gen2_v2_layout(d: Seq<u8>, p: int, v: crate::dt::gen2v2::DriverCardApplicationIdentificationGen2V2)
    requires
        0 <= p && p + 10 <= d.len(),
        crate::dt::gen2v2::DriverCardApplicationIdentificationGen2V2::parse_ok(d, p),
        crate::dt::gen2v2::DriverCardApplicationIdentificationGen2V2::parsed_as(d, p, v),
    ensures
        u16::parsed_as(d, p, v.length_of_following_data),
        u16::parsed_as(d, p + 2, v.no_of_border_crossing_records),
        u16::parsed_as(d, p + 4, v.no_of_load_unload_records),
        u16::parsed_as(d, p + 6, v.no_of_load_type_entry_records),
        u16::parsed_as(d, p + 8, v.vu_configuration_length_range),
{
}

/// The fields of a `DriverCardHolderIdentification` (78 bytes) in their order and at their byte offsets.
pub proof fn law_driver_card_holder_identification_layout(d: Seq<u8>, p: int, v: crate::dt::DriverCardHolderIdentification)
    requires
        0 <= p && p + 78 <= d.len(),
        crate::dt::DriverCardHolderIdentification::parse_ok(d, p),
        crate::dt::DriverCardHolderIdentification::parsed_as(d, p, v),
    ensures
        crate::dt::HolderName::parsed_as(d, p, v.card_holder_number),
        crate::dt::Datef::parsed_as(d, p + 72, v.card_holder_birth_date),
        crate::dt::Language::parsed_as(d, p + 76, v.card_holder_preferred_language),
{
}

/// The fields of a `EmbedderIcAssemblerId` (5 bytes) in their order and at their byte offsets.
pub proof fn law_embedder_ic_assembler_id_layout(d: Seq<u8>, p: int, v: crate::dt::EmbedderIcAssemblerId)
    requires
        0 <= p && p + 5 <= d.len(),
        crate::dt::EmbedderIcAssemblerId::parse_ok(d, p),
        crate::dt::EmbedderIcAssemblerId::parsed_as(d, p, v),
    ensures
        crate::dt::IA5String::dyn_as(d, p, 2, v.country_code),
        u8::parsed_as(d, p + 4, v.manufacturer_information),
{
}

/// The fields of a `ExtendedSerialNumber` (8 bytes) in their order and at their byte offsets.
pub proof fn law_extended_serial_number_layout(d: Seq<u8>, p: int, v: crate::dt::gen1::ExtendedSerialNumber)
    requires
        0 <= p && p + 8 <= d.len(),
        crate::dt::gen1::ExtendedSerialNumber::parse_ok(d, p),
        crate::dt::gen1::ExtendedSerialNumber::parsed_as(d, p, v),
    ensures
        u32::parsed_as(d, p, v.serial_number),
        crate::dt::MonthYear::parsed_as(d, p + 4, v.month_year),
        u8::parsed_as(d, p + 6, v.type_),
        crate::dt::external::ManufacturerCode::parsed_as(d, p + 7, v.manufacturer_code),
{
}

/// The fields of a `ExtendedSerialNumberGen2` (8 bytes) in their order and at their byte offsets.
pub proof fn law_extended_serial_number_gen2_layout(d: Seq<u8>, p: int, v: crate::dt::gen2::ExtendedSerialNumberGen2)
    requires
        0 <= p && p + 8 <= d.len(),
        crate::dt::gen2::ExtendedSerialNumberGen2::parse_ok(d, p),
        crate::dt::gen2::ExtendedSerialNumberGen2::parsed_as(d, p, v),
    ensures
        u32::parsed_as(d, p, v.serial_number),
        crate::dt::MonthYear::parsed_as(d, p + 4, v.month_year),
        crate::dt::gen2::EquipmentTypeGen2::parsed_as(d, p + 6, v.equipment_type),
        crate::dt::external::ManufacturerCode::parsed_as(d, p + 7, v.manufacturer_code),
{
}

/// The fields of a `FullCardNumber` (18 bytes) in their order and at their byte offsets.
pub proof fn law_full_card_number_layout(d: Seq<u8>, p: int, v: crate::dt::gen1::FullCardNumber)
    requires
        0 <= p && p + 18 <= d.len(),
        crate::dt::gen1::FullCardNumber::parse_ok(d, p),
        crate::dt::gen1::FullCardNumber::parsed_as(d, p, v),
    ensures
        crate::dt::gen1::EquipmentType::parsed_as(d, p, v.card_type),
        crate::dt::external::NationNumeric::parsed_as(d, p + 1, v.card_issuing_member_state),
{
}

/// The fields of a `FullCardNumberAndGenerationGen2` (19 bytes) in their order and at their byte offsets.
pub proof fn law_full_card_number_and_generation_gen2_layout(d: Seq<u8>, p: int, v: crate::dt::gen2::FullCardNumberAndGenerationGen2)
    requires
        0 <= p && p + 19 <= d.len(),
        crate::dt::gen2::FullCardNumberAndGenerationGen2::parse_ok(d, p),
        crate::dt::gen2::FullCardNumberAndGenerationGen2::parsed_as(d, p, v),
    ensures
        crate::dt::gen2::FullCardNumberGen2::parsed_as(d, p, v.full_card_number),
        crate::dt::gen2::GenerationGen2::parsed_as(d, p + 18, v.generation),
{
}

/// The fields of a `FullCardNumberGen2` (18 bytes) in their order and at their byte offsets.
pub proof fn law_full_card_number_gen2_layout(d: Seq<u8>, p: int, v: crate::dt::gen2::FullCardNumberGen2)
    requires
        0 <= p && p + 18 <= d.len(),
        crate::dt::gen2::FullCardNumberGen2::parse_ok(d, p),
        crate::dt::gen2::FullCardNumberGen2::parsed_as(d, p, v),
    ensures
        crate::dt::gen2::EquipmentTypeGen2::parsed_as(d, p, v.card_type),
        crate::dt::external::NationNumeric::parsed_as(d, p + 1, v.card_issuing_member_state),
{
}

/// The fields of a `GNSSAccumulatedDrivingRecordGen2` (18 bytes) in their order and at their byte offsets.
pub proof fn law_g_n_s_s_accumulated_driving_record_gen2_layout(d: Seq<u8>, p: int, v: crate::dt::gen2::GNSSAccumulatedDrivingRecordGen2)
    requires
        0 <= p && p + 18 <= d.len(),
        crate::dt::gen2::GNSSAccumulatedDrivingRecordGen2::parse_ok(d, p),
        crate::dt::gen2::GNSSAccumulatedDrivingRecordGen2::parsed_as(d, p, v),
    ensures
        crate::dt::TimeReal::parsed_as(d, p, v.time_stamp),
        crate::dt::gen2::GNSSPlaceRecordGen2::parsed_as(d, p + 4, v.gnss_place_record),
        crate::dt::OdometerShort::parsed_as(d, p + 15, v.vehicle_odometer_value),
{
}

/// The fields of a `GNSSAuthStatusADRecord` (5 bytes) in their order and at their byte offsets.
pub proof fn law_g_n_s_s_auth_status_a_d_record_layout(d: Seq<u8>, p: int, v: crate::dt::gen2v2::GNSSAuthStatusADRecord)
    requires
        0 <= p && p + 5 <= d.len(),
        crate::dt::gen2v2::GNSSAuthStatusADRecord::parse_ok(d, p),
        crate::dt::gen2v2::GNSSAuthStatusADRecord::parsed_as(d, p, v),
    ensures
        crate::dt::TimeReal::parsed_as(d.subrange(p, p + 5), 0, v.time_stamp),
        crate::dt::gen2v2::PositionAuthenticationStatus::parsed_as(d.subrange(p, p + 5), 4, v.authentication_status),
{
}

/// The fields of a `GNSSPlaceAuthRecord` (12 bytes) in their order and at their byte offsets.
pub proof fn law_g_n_s_s_place_auth_record_layout(d: Seq<u8>, p: int, v: crate::dt::gen2v2::GNSSPlaceAuthRecord)
    requires
        0 <= p && p + 12 <= d.len(),
        crate::dt::gen2v2::GNSSPlaceAuthRecord::parse_ok(d, p),
        crate::dt::gen2v2::GNSSPlaceAuthRecord::parsed_as(d, p, v),
    ensures
        crate::dt::TimeReal::parsed_as(d, p, v.time_stamp),
        crate::dt::gen2::GNSSAccuracyGen2::parsed_as(d, p + 4, v.gnss_accuracy),
        crate::dt::gen2::GeoCoordinatesGen2::parsed_as(d, p + 5, v.gnss_coordinates),
        crate::dt::gen2v2::PositionAuthenticationStatus::parsed_as(d, p + 11, v.authentication_status),
{
}

/// The fields of a `GNSSPlaceRecordGen2` (11 bytes) in their order and at their byte offsets.
pub proof fn law_g_n_s_s_place_record_gen2_layout(d: Seq<u8>, p: int, v: crate::dt::gen2::GNSSPlaceRecordGen2)
    requires
        0 <= p && p + 11 <= d.len(),
        crate::dt::gen2::GNSSPlaceRecordGen2::parse_ok(d, p),
        crate::dt::gen2::GNSSPlaceRecordGen2::parsed_as(d, p, v),
    ensures
        crate::dt::TimeReal::parsed_as(d, p, v.time_stamp),
        crate::dt::gen2::GNSSAccuracyGen2::parsed_as(d, p + 4, v.gnss_accuracy),
        crate::dt::gen2::GeoCoordinatesGen2::parsed_as(d, p + 5, v.geo_coordinates),
{
}

/// The fields of a `HolderName` (72 bytes) in their order and at their byte offsets.
pub proof fn law_holder_name_layout(d: Seq<u8>, p: int, v: crate::dt::HolderName)
    requires
        0 <= p && p + 72 <= d.len(),
        crate::dt::HolderName::parse_ok(d, p),
        crate::dt::HolderName::parsed_as(d, p, v),
    ensures
        crate::dt::Name::parsed_as(d, p, v.holder_surname),
        crate::dt::Name::parsed_as(d, p + 36, v.holder_first_names),
{
}

/// The fields of a `Identification` (143 bytes) in their order and at their byte offsets.
pub proof fn law_identification_layout(d: Seq<u8>, p: int, v: crate::dt::Identification)
    requires
        0 <= p && p + 143 <= d.len(),
        crate::dt::Identification::parse_ok(d, p),
        crate::dt::Identification::parsed_as(d, p, v),
    ensures
        crate::dt::CardIdentification::parsed_as(d, p, v.card_identification),
        crate::dt::DriverCardHolderIdentification::parsed_as(d, p + 65, v.driver_card_holder_identification),
{
}

/// The fields of a `PlaceAuthRecord` (22 bytes) in their order and at their byte offsets.
pub proof fn law_place_auth_record_layout(d: Seq<u8>, p: int, v: crate::dt::gen2v2::PlaceAuthRecord)
    requires
        0 <= p && p + 22 <= d.len(),
        crate::dt::gen2v2::PlaceAuthRecord::parse_ok(d, p),
        crate::dt::gen2v2::PlaceAuthRecord::parsed_as(d, p, v),
    ensures
        crate::dt::TimeReal::parsed_as(d, p, v.entry_time),
        crate::dt::gen2::EntryTypeDailyWorkPeriodGen2::parsed_as(d, p + 4, v.entry_type_daily_work_period),
        crate::dt::external::NationNumeric::parsed_as(d, p + 5, v.daily_work_period_country),
        crate::dt::gen1::RegionNumeric::parsed_as(d, p + 6, v.daily_work_period_region),
        crate::dt::OdometerShort::parsed_as(d, p + 7, v.vehicle_odometer_value),
        crate::dt::gen2v2::GNSSPlaceAuthRecord::parsed_as(d, p + 10, v.entry_gnss_place_auth_record),
{
}

/// The fields of a `PlaceAuthStatusRecord` (5 bytes) in their order and at their byte offsets.
pub proof fn law_place_auth_status_record_layout(d: Seq<u8>, p: int, v: crate::dt::gen2v2::PlaceAuthStatusRecord)
    requires
        0 <= p && p + 5 <= d.len(),
        crate::dt::gen2v2::PlaceAuthStatusRecord::parse_ok(d, p),
        crate::dt::gen2v2::PlaceAuthStatusRecord::parsed_as(d, p, v),
    ensures
        crate::dt::TimeReal::parsed_as(d.subrange(p, p + 5), 0, v.entry_time),
        crate::dt::gen2v2::PositionAuthenticationStatus::parsed_as(d.subrange(p, p + 5), 4, v.authentication_status),
{
}

/// The fields of a `PlaceRecord` (10 bytes) in their order and at their byte offsets.
pub proof fn law_place_record_layout(d: Seq<u8>, p: int, v: crate::dt::gen1::PlaceRecord)
    requires
        0 <= p && p + 10 <= d.len(),
        crate::dt::gen1::PlaceRecord::parse_ok(d, p),
        crate::dt::gen1::PlaceRecord::parsed_as(d, p, v),
    ensures
        crate::dt::TimeReal::parsed_as(d.subrange(p, p + 10), 0, v.entry_time),
        crate::dt::gen1::EntryTypeDailyWorkPeriod::parsed_as(d.subrange(p, p + 10), 4, v.entry_type_daily_work_period),
        crate::dt::external::NationNumeric::parsed_as(d.subrange(p, p + 10), 5, v.daily_work_period_country),
        crate::dt::gen1::RegionNumeric::parsed_as(d.subrange(p, p + 10), 6, v.daily_work_period_region),
        crate::dt::OdometerShort::parsed_as(d.subrange(p, p + 10), 7, v.vehicle_odometer_value),
{
}

/// The fields of a `PlaceRecordGen2` (21 bytes) in their order and at their byte offsets.
pub proof fn law_place_record_gen2_layout(d: Seq<u8>, p: int, v: crate::dt::gen2::PlaceRecordGen2)
    requires
        0 <= p && p + 21 <= d.len(),
        crate::dt::gen2::PlaceRecordGen2::parse_ok(d, p),
        crate::dt::gen2::PlaceRecordGen2::parsed_as(d, p, v),
    ensures
        crate::dt::TimeReal::parsed_as(d.subrange(p, p + 21), 0, v.entry_time),
        crate::dt::gen2::EntryTypeDailyWorkPeriodGen2::parsed_as(d.subrange(p, p + 21), 4, v.entry_type_daily_work_period),
        crate::dt::external::NationNumeric::parsed_as(d.subrange(p, p + 21), 5, v.daily_work_period_country),
        crate::dt::gen1::RegionNumeric::parsed_as(d.subrange(p, p + 21), 6, v.daily_work_period_region),
        crate::dt::OdometerShort::parsed_as(d.subrange(p, p + 21), 7, v.vehicle_odometer_value),
        crate::dt::gen2::GNSSPlaceRecordGen2::parsed_as(d.subrange(p, p + 21), 10, v.entry_gnss_place_record),
{
}

/// The fields of a `PreviousVehicleInfo` (19 bytes) in their order and at their byte offsets.
pub proof fn law_previous_vehicle_info_layout(d: Seq<u8>, p: int, v: crate::dt::gen1::PreviousVehicleInfo)
    requires
        0 <= p && p + 19 <= d.len(),
        crate::dt::gen1::PreviousVehicleInfo::parse_ok(d, p),
        crate::dt::gen1::PreviousVehicleInfo::parsed_as(d, p, v),
    ensures
        crate::dt::VehicleRegistrationIdentification::parsed_as(d, p, v.vehicle_registration_identification),
        crate::dt::TimeReal::parsed_as(d, p + 15, v.card_withdrawal_time),
{
}

/// The fields of a `PreviousVehicleInfoGen2` (20 bytes) in their order and at their byte offsets.
pub proof fn law_previous_vehicle_info_gen2_layout(d: Seq<u8>, p: int, v: crate::dt::gen2::PreviousVehicleInfoGen2)
    requires
        0 <= p && p + 20 <= d.len(),
        crate::dt::gen2::PreviousVehicleInfoGen2::parse_ok(d, p),
        crate::dt::gen2::PreviousVehicleInfoGen2::parsed_as(d, p, v),
    ensures
        crate::dt::VehicleRegistrationIdentification::parsed_as(d, p, v.vehicle_registration_identification),
        optional_as::<crate::dt::TimeReal>(d, p + 15, v.card_withdrawal_time),
        crate::dt::gen2::GenerationGen2::parsed_as(d, p + 19, v.vu_generation),
{
}

/// The fields of a `SealRecordGen2` (11 bytes) in their order and at their byte offsets.
pub proof fn law_seal_record_gen2_layout(d: Seq<u8>, p: int, v: crate::dt::gen2::SealRecordGen2)
    requires
        0 <= p && p + 11 <= d.len(),
        crate::dt::gen2::SealRecordGen2::parse_ok(d, p),
        crate::dt::gen2::SealRecordGen2::parsed_as(d, p, v),
    ensures
        crate::dt::gen2::EquipmentTypeGen2::parsed_as(d, p, v.equipment_type),
        crate::dt::gen2::ExtendedSealIdentifierGen2::parsed_as(d, p + 1, v.extended_seal_identifier),
{
}

/// The fields of a `SensorExternalGNSSCoupledRecordGen2` (28 bytes) in their order and at their byte offsets.
pub proof fn law_sensor_external_g_n_s_s_coupled_record_gen2_layout(d: Seq<u8>, p: int, v: crate::dt::gen2::SensorExternalGNSSCoupledRecordGen2)
    requires
        0 <= p && p + 28 <= d.len(),
        crate::dt::gen2::SensorExternalGNSSCoupledRecordGen2::parse_ok(d, p),
        crate::dt::gen2::SensorExternalGNSSCoupledRecordGen2::parsed_as(d, p, v),
    ensures
        crate::dt::gen2::SensorGNSSSerialNumber::parsed_as(d, p, v.sensor_serial_number),
        crate::dt::gen2::SensorExternalGNSSApprovalNumberGen2::parsed_as(d, p + 8, v.sensor_approval_number),
        crate::dt::gen2::SensorGNSSCouplingDate::parsed_as(d, p + 24, v.sensor_coupling_date),
{
}

/// The fields of a `SensorPaired` (20 bytes) in their order and at their byte offsets.
pub proof fn law_sensor_paired_layout(d: Seq<u8>, p: int, v: crate::dt::gen1::SensorPaired)
    requires
        0 <= p && p + 20 <= d.len(),
        crate::dt::gen1::SensorPaired::parse_ok(d, p),
        crate::dt::gen1::SensorPaired::parsed_as(d, p, v),
    ensures
        crate::dt::gen1::SensorSerialNumber::parsed_as(d, p, v.sensor_serial_number),
        crate::dt::gen1::SensorApprovalNumber::parsed_as(d, p + 8, v.sensor_approval_number),
        crate::dt::SensorPairingDate::parsed_as(d, p + 16, v.sensor_pairing_date_first),
{
}

/// The fields of a `SensorPairedRecordGen2` (28 bytes) in their order and at their byte offsets.
pub proof fn law_sensor_paired_record_gen2_layout(d: Seq<u8>, p: int, v: crate::dt::gen2::SensorPairedRecordGen2)
    requires
        0 <= p && p + 28 <= d.len(),
        crate::dt::gen2::SensorPairedRecordGen2::parse_ok(d, p),
        crate::dt::gen2::SensorPairedRecordGen2::parsed_as(d, p, v),
    ensures
        crate::dt::gen2::SensorSerialNumberGen2::parsed_as(d, p, v.sensor_serial_number),
        crate::dt::gen2::SensorApprovalNumberGen2::parsed_as(d, p + 8, v.sensor_approval_number),
        crate::dt::SensorPairingDate::parsed_as(d, p + 24, v.sensor_pairing_date),
{
}

/// The fields of a `SpecificConditionRecord` (5 bytes) in their order and at their byte offsets.
pub proof fn law_specific_condition_record_layout(d: Seq<u8>, p: int, v: crate::dt::gen1::SpecificConditionRecord)
    requires
        0 <= p && p + 5 <= d.len(),
        crate::dt::gen1::SpecificConditionRecord::parse_ok(d, p),
        crate::dt::gen1::SpecificConditionRecord::parsed_as(d, p, v),
    ensures
        crate::dt::TimeReal::parsed_as(d.subrange(p, p + 5), 0, v.entry_time),
        crate::dt::gen1::SpecificConditionType::parsed_as(d.subrange(p, p + 5), 4, v.specific_condition_type),
{
}

/// The fields of a `SpecificConditionRecordGen2` (5 bytes) in their order and at their byte offsets.
pub proof fn law_specific_condition_record_gen2_layout(d: Seq<u8>, p: int, v: crate::dt::gen2::SpecificConditionRecordGen2)
    requires
        0 <= p && p + 5 <= d.len(),
        crate::dt::gen2::SpecificConditionRecordGen2::parse_ok(d, p),
        crate::dt::gen2::SpecificConditionRecordGen2::parsed_as(d, p, v),
    ensures
        crate::dt::TimeReal::parsed_as(d.subrange(p, p + 5), 0, v.entry_time),
        crate::dt::gen2::SpecificConditionTypeGen2::parsed_as(d.subrange(p, p + 5), 4, v.specific_condition_type),
{
}

/// The fields of a `VehicleRegistrationIdentification` (15 bytes) in their order and at their byte offsets.
pub proof fn law_vehicle_registration_identification_layout(d: Seq<u8>, p: int, v: crate::dt::VehicleRegistrationIdentification)
    requires
        0 <= p && p + 15 <= d.len(),
        crate::dt::VehicleRegistrationIdentification::parse_ok(d, p),
        crate::dt::VehicleRegistrationIdentification::parsed_as(d, p, v),
    ensures
        crate::dt::external::NationNumeric::parsed_as(d, p, v.vehicle_registration_nation),
        crate::dt::VehicleRegistrationNumber::parsed_as(d, p + 1, v.vehicle_registration_number),
{
}

/// The fields of a `VuBorderCrossingRecord` (55 bytes) in their order and at their byte offsets.
pub proof fn law_vu_border_crossing_record_layout(d: Seq<u8>, p: int, v: crate::dt::gen2v2::VuBorderCrossingRecord)
    requires
        0 <= p && p + 55 <= d.len(),
        crate::dt::gen2v2::VuBorderCrossingRecord::parse_ok(d, p),
        crate::dt::gen2v2::VuBorderCrossingRecord::parsed_as(d, p, v),
    ensures
        optional_as::<crate::dt::gen2::FullCardNumberAndGenerationGen2>(d, p, v.card_number_and_gen_driver_slot),
        optional_as::<crate::dt::gen2::FullCardNumberAndGenerationGen2>(d, p + 19, v.card_number_and_gen_codriver_slot),
        crate::dt::external::NationNumeric::parsed_as(d, p + 38, v.country_left),
        crate::dt::external::NationNumeric::parsed_as(d, p + 39, v.country_entered),
        crate::dt::gen2v2::GNSSPlaceAuthRecord::parsed_as(d, p + 40, v.gnss_place_auth_record),
        crate::dt::OdometerShort::parsed_as(d, p + 52, v.vehicle_odometer_value),
{
}

/// The fields of a `VuCalibrationRecord` (167 bytes) in their order and at their byte offsets.
pub proof fn law_vu_calibration_record_layout(d: Seq<u8>, p: int, v: crate::dt::gen1::VuCalibrationRecord)
    requires
        0 <= p && p + 167 <= d.len(),
        crate::dt::gen1::VuCalibrationRecord::parse_ok(d, p),
        crate::dt::gen1::VuCalibrationRecord::parsed_as(d, p, v),
    ensures
        crate::dt::gen1::CalibrationPurpose::parsed_as(d, p, v.calibration_purpose),
        crate::dt::Name::parsed_as(d, p + 1, v.workshop_name),
        crate::dt::Address::parsed_as(d, p + 37, v.workshop_address),
        crate::dt::gen1::FullCardNumber::parsed_as(d, p + 73, v.workshop_card_number),
        optional_as::<crate::dt::TimeReal>(d, p + 91, v.workshop_card_expiry_date),
        optional_as::<crate::dt::VehicleIdentificationNumber>(d, p + 95, v.vehicle_identification_number),
        optional_as::<crate::dt::VehicleRegistrationIdentification>(d, p + 112, v.vehicle_registration_identification),
        crate::dt::WVehicleCharacteristicConstant::parsed_as(d, p + 127, v.w_vehicle_characteristic_constant),
        crate::dt::KConstantOfRecordingEquipment::parsed_as(d, p + 129, v.k_constant_of_recording_equipment),
        crate::dt::LTyreCircumference::parsed_as(d, p + 131, v.l_tyre_circumference),
        crate::dt::TyreSize::parsed_as(d, p + 133, v.tyre_size),
        crate::dt::SpeedAuthorised::parsed_as(d, p + 148, v.authorised_speed),
        crate::dt::OdometerShort::parsed_as(d, p + 149, v.old_odometer_value),
        crate::dt::OdometerShort::parsed_as(d, p + 152, v.new_odometer_value),
        optional_as::<crate::dt::TimeReal>(d, p + 155, v.old_time_value),
        optional_as::<crate::dt::TimeReal>(d, p + 159, v.new_time_value),
        optional_as::<crate::dt::TimeReal>(d, p + 163, v.next_calibration_date),
{
}

/// The fields of a `VuCardIWRecord` (129 bytes) in their order and at their byte offsets.
pub proof fn law_vu_card_i_w_record_layout(d: Seq<u8>, p: int, v: crate::dt::gen1::VuCardIWRecord)
    requires
        0 <= p && p + 129 <= d.len(),
        crate::dt::gen1::VuCardIWRecord::parse_ok(d, p),
        crate::dt::gen1::VuCardIWRecord::parsed_as(d, p, v),
    ensures
        crate::dt::HolderName::parsed_as(d, p, v.card_holder_name),
        crate::dt::gen1::FullCardNumber::parsed_as(d, p + 72, v.full_card_number),
        crate::dt::TimeReal::parsed_as(d, p + 90, v.card_expiry_date),
        crate::dt::TimeReal::parsed_as(d, p + 94, v.card_insertion_time),
        crate::dt::OdometerShort::parsed_as(d, p + 98, v.vehicle_odometer_value_at_insertion),
        crate::dt::CardSlotNumber::parsed_as(d, p + 101, v.card_slot_number),
        optional_as::<crate::dt::TimeReal>(d, p + 102, v.card_withdrawal_time),
        crate::dt::OdometerShort::parsed_as(d, p + 106, v.vehicle_odometer_value_at_withdrawal),
        crate::dt::gen1::PreviousVehicleInfo::parsed_as(d, p + 109, v.previous_vehicle_info),
        crate::dt::ManualInputFlag::parsed_as(d, p + 128, v.manual_entry_flag),
{
}

/// The fields of a `VuCardIWRecordGen2` (131 bytes) in their order and at their byte offsets.
pub proof fn law_vu_card_i_w_record_gen2_layout(d: Seq<u8>, p: int, v: crate::dt::gen2::VuCardIWRecordGen2)
    requires
        0 <= p && p + 131 <= d.len(),
        crate::dt::gen2::VuCardIWRecordGen2::parse_ok(d, p),
        crate::dt::gen2::VuCardIWRecordGen2::parsed_as(d, p, v),
    ensures
        crate::dt::HolderName::parsed_as(d, p, v.card_holder_name),
        crate::dt::gen2::FullCardNumberAndGenerationGen2::parsed_as(d, p + 72, v.full_card_number_and_generation),
        crate::dt::TimeReal::parsed_as(d, p + 91, v.card_expiry_date),
        crate::dt::TimeReal::parsed_as(d, p + 95, v.card_insertion_date),
        crate::dt::OdometerShort::parsed_as(d, p + 99, v.vehicle_odometer_value_at_insertion),
        crate::dt::CardSlotNumber::parsed_as(d, p + 102, v.card_slot_number),
        optional_as::<crate::dt::TimeReal>(d, p + 103, v.card_withdrawl_time),
        crate::dt::OdometerShort::parsed_as(d, p + 107, v.vehicle_odometer_value_at_withdrawal),
        crate::dt::gen2::PreviousVehicleInfoGen2::parsed_as(d, p + 110, v.previous_vehicle_info),
        crate::dt::ManualInputFlag::parsed_as(d, p + 130, v.manual_input_flag),
{
}

/// The fields of a `VuCompanyLocksGen2` (99 bytes) in their order and at their byte offsets.
pub proof fn law_vu_company_locks_gen2_layout(d: Seq<u8>, p: int, v: crate::dt::gen2::VuCompanyLocksGen2)
    requires
        0 <= p && p + 99 <= d.len(),
        crate::dt::gen2::VuCompanyLocksGen2::parse_ok(d, p),
        crate::dt::gen2::VuCompanyLocksGen2::parsed_as(d, p, v),
    ensures
        crate::dt::TimeReal::parsed_as(d, p, v.lock_in_time),
        optional_as::<crate::dt::TimeReal>(d, p + 4, v.lock_out_time),
        crate::dt::Name::parsed_as(d, p + 8, v.company_name),
        crate::dt::Address::parsed_as(d, p + 44, v.company_address),
        crate::dt::gen2::FullCardNumberAndGenerationGen2::parsed_as(d, p + 80, v.company_card_number_and_generation),
{
}

/// The fields of a `VuCompanyLocksRecord` (98 bytes) in their order and at their byte offsets.
pub proof fn law_vu_company_locks_record_layout(d: Seq<u8>, p: int, v: crate::dt::gen1::VuCompanyLocksRecord)
    requires
        0 <= p && p + 98 <= d.len(),
        crate::dt::gen1::VuCompanyLocksRecord::parse_ok(d, p),
        crate::dt::gen1::VuCompanyLocksRecord::parsed_as(d, p, v),
    ensures
        crate::dt::TimeReal::parsed_as(d, p, v.lock_in_time),
        optional_as::<crate::dt::TimeReal>(d, p + 4, v.lock_out_time),
        crate::dt::Name::parsed_as(d, p + 8, v.company_name),
        crate::dt::Address::parsed_as(d, p + 44, v.company_address),
        crate::dt::gen1::FullCardNumber::parsed_as(d, p + 80, v.company_card_number),
{
}

/// The fields of a `VuControlActivityGen2` (32 bytes) in their order and at their byte offsets.
pub proof fn law_vu_control_activity_gen2_layout(d: Seq<u8>, p: int, v: crate::dt::gen2::VuControlActivityGen2)
    requires
        0 <= p && p + 32 <= d.len(),
        crate::dt::gen2::VuControlActivityGen2::parse_ok(d, p),
        crate::dt::gen2::VuControlActivityGen2::parsed_as(d, p, v),
    ensures
        crate::dt::gen2::ControlTypeGen2::parsed_as(d, p, v.control_type),
        crate::dt::TimeReal::parsed_as(d, p + 1, v.control_time),
        crate::dt::gen2::FullCardNumberAndGenerationGen2::parsed_as(d, p + 5, v.control_card_number_and_generation),
        crate::dt::TimeReal::parsed_as(d, p + 24, v.download_period_begin_time),
        crate::dt::TimeReal::parsed_as(d, p + 28, v.download_period_end_time),
{
}

/// The fields of a `VuControlActivityRecord` (31 bytes) in their order and at their byte offsets.
pub proof fn law_vu_control_activity_record_layout(d: Seq<u8>, p: int, v: crate::dt::gen1::VuControlActivityRecord)
    requires
        0 <= p && p + 31 <= d.len(),
        crate::dt::gen1::VuControlActivityRecord::parse_ok(d, p),
        crate::dt::gen1::VuControlActivityRecord::parsed_as(d, p, v),
    ensures
        crate::dt::gen1::ControlType::parsed_as(d, p, v.control_type),
        crate::dt::TimeReal::parsed_as(d, p + 1, v.control_time),
        crate::dt::gen1::FullCardNumber::parsed_as(d, p + 5, v.control_card_number),
        crate::dt::TimeReal::parsed_as(d, p + 23, v.download_period_begin_time),
        crate::dt::TimeReal::parsed_as(d, p + 27, v.download_period_end_time),
{
}

/// The fields of a `VuDownloadActivityData` (58 bytes) in their order and at their byte offsets.
pub proof fn law_vu_download_activity_data_layout(d: Seq<u8>, p: int, v: crate::dt::gen1::VuDownloadActivityData)
    requires
        0 <= p && p + 58 <= d.len(),
        crate::dt::gen1::VuDownloadActivityData::parse_ok(d, p),
        crate::dt::gen1::VuDownloadActivityData::parsed_as(d, p, v),
    ensures
        crate::dt::TimeReal::parsed_as(d, p, v.downloading_time),
        crate::dt::gen1::FullCardNumber::parsed_as(d, p + 4, v.full_card_number),
        crate::dt::Name::parsed_as(d, p + 22, v.company_or_workshop_name),
{
}

/// The fields of a `VuDownloadActivityDataGen2` (59 bytes) in their order and at their byte offsets.
pub proof fn law_vu_download_activity_data_gen2_layout(d: Seq<u8>, p: int, v: crate::dt::gen2::VuDownloadActivityDataGen2)
    requires
        0 <= p && p + 59 <= d.len(),
        crate::dt::gen2::VuDownloadActivityDataGen2::parse_ok(d, p),
        crate::dt::gen2::VuDownloadActivityDataGen2::parsed_as(d, p, v),
    ensures
        optional_as::<crate::dt::TimeReal>(d, p, v.downloading_time),
        optional_as::<crate::dt::gen2::FullCardNumberAndGenerationGen2>(d, p + 4, v.full_card_number_and_generation),
        optional_as::<crate::dt::Name>(d, p + 23, v.company_or_workshop_name),
{
}

/// The fields of a `VuDownloadablePeriod` (8 bytes) in their order and at their byte offsets.
pub proof fn law_vu_downloadable_period_layout(d: Seq<u8>, p: int, v: crate::dt::VuDownloadablePeriod)
    requires
        0 <= p && p + 8 <= d.len(),
        crate::dt::VuDownloadablePeriod::parse_ok(d, p),
        crate::dt::VuDownloadablePeriod::parsed_as(d, p, v),
    ensures
        crate::dt::TimeReal::parsed_as(d, p, v.min_downloadable_time),
        crate::dt::TimeReal::parsed_as(d, p + 4, v.max_downloadable_time),
{
}

/// The fields of a `VuEventRecord` (83 bytes) in their order and at their byte offsets.
pub proof fn law_vu_event_record_layout(d: Seq<u8>, p: int, v: crate::dt::gen1::VuEventRecord)
    requires
        0 <= p && p + 83 <= d.len(),
        crate::dt::gen1::VuEventRecord::parse_ok(d, p),
        crate::dt::gen1::VuEventRecord::parsed_as(d, p, v),
    ensures
        crate::dt::gen1::EventFaultType::parsed_as(d, p, v.event_type),
        crate::dt::EventFaultRecordPurpose::parsed_as(d, p + 1, v.event_record_purpose),
        crate::dt::TimeReal::parsed_as(d, p + 2, v.event_begin_time),
        crate::dt::TimeReal::parsed_as(d, p + 6, v.event_end_time),
        optional_as::<crate::dt::gen1::FullCardNumber>(d, p + 10, v.card_number_driver_slot_begin),
        optional_as::<crate::dt::gen1::FullCardNumber>(d, p + 28, v.card_number_codriver_slot_begin),
        optional_as::<crate::dt::gen1::FullCardNumber>(d, p + 46, v.card_number_driver_slot_end),
        optional_as::<crate::dt::gen1::FullCardNumber>(d, p + 64, v.card_number_codriver_slot_end),
        crate::dt::SimilarEventsNumber::parsed_as(d, p + 82, v.similar_events_number),
{
}

/// The fields of a `VuFaultRecord` (82 bytes) in their order and at their byte offsets.
pub proof fn law_vu_fault_record_layout(d: Seq<u8>, p: int, v: crate::dt::gen1::VuFaultRecord)
    requires
        0 <= p && p + 82 <= d.len(),
        crate::dt::gen1::VuFaultRecord::parse_ok(d, p),
        crate::dt::gen1::VuFaultRecord::parsed_as(d, p, v),
    ensures
        crate::dt::gen1::EventFaultType::parsed_as(d, p, v.fault_type),
        crate::dt::EventFaultRecordPurpose::parsed_as(d, p + 1, v.fault_record_purpose),
        crate::dt::TimeReal::parsed_as(d, p + 2, v.fault_begin_time),
        crate::dt::TimeReal::parsed_as(d, p + 6, v.fault_end_time),
        optional_as::<crate::dt::gen1::FullCardNumber>(d, p + 10, v.card_number_driver_slot_begin),
        optional_as::<crate::dt::gen1::FullCardNumber>(d, p + 28, v.card_number_codriver_slot_begin),
        optional_as::<crate::dt::gen1::FullCardNumber>(d, p + 46, v.card_number_driver_slot_end),
        optional_as::<crate::dt::gen1::FullCardNumber>(d, p + 64, v.card_number_codriver_slot_end),
{
}

/// The fields of a `VuGNSSADRecordGen2` (56 bytes) in their order and at their byte offsets.
pub proof fn law_vu_g_n_s_s_a_d_record_gen2_layout(d: Seq<u8>, p: int, v: crate::dt::gen2::VuGNSSADRecordGen2)
    requires
        0 <= p && p + 56 <= d.len(),
        crate::dt::gen2::VuGNSSADRecordGen2::parse_ok(d, p),
        crate::dt::gen2::VuGNSSADRecordGen2::parsed_as(d, p, v),
    ensures
        crate::dt::TimeReal::parsed_as(d, p, v.time_stamp),
        optional_as::<crate::dt::gen2::FullCardNumberAndGenerationGen2>(d, p + 4, v.card_number_and_gen_driver_slot),
        optional_as::<crate::dt::gen2::FullCardNumberAndGenerationGen2>(d, p + 23, v.card_number_and_gen_codriver_slot),
        crate::dt::gen2::GNSSPlaceRecordGen2::parsed_as(d, p + 42, v.gnss_place_record),
        crate::dt::OdometerShort::parsed_as(d, p + 53, v.vehicle_odometer_value),
{
}

/// The fields of a `VuGNSSADRecordGen2V2` (57 bytes) in their order and at their byte offsets.
pub proof fn law_vu_g_n_s_s_a_d_record_gen2_v2_layout(d: Seq<u8>, p: int, v: crate::dt::gen2v2::VuGNSSADRecordGen2V2)
    requires
        0 <= p && p + 57 <= d.len(),
        crate::dt::gen2v2::VuGNSSADRecordGen2V2::parse_ok(d, p),
        crate::dt::gen2v2::VuGNSSADRecordGen2V2::parsed_as(d, p, v),
    ensures
        crate::dt::TimeReal::parsed_as(d, p, v.timestamp),
        optional_as::<crate::dt::gen2::FullCardNumberAndGenerationGen2>(d, p + 4, v.card_number_and_gen_driver_slot),
        optional_as::<crate::dt::gen2::FullCardNumberAndGenerationGen2>(d, p + 23, v.card_number_and_gen_codriver_slot),
        crate::dt::gen2v2::GNSSPlaceAuthRecord::parsed_as(d, p + 42, v.gnss_place_auth_record),
        crate::dt::OdometerShort::parsed_as(d, p + 54, v.vehicle_odometer_value),
{
}

/// The fields of a `VuIdentification` (116 bytes) in their order and at their byte offsets.
pub proof fn law_vu_identification_layout(d: Seq<u8>, p: int, v: crate::dt::gen1::VuIdentification)
    requires
        0 <= p && p + 116 <= d.len(),
        crate::dt::gen1::VuIdentification::parse_ok(d, p),
        crate::dt::gen1::VuIdentification::parsed_as(d, p, v),
    ensures
        crate::dt::VuManufacturerName::parsed_as(d, p, v.vu_manufacturer_name),
        crate::dt::VuManufacturerAddress::parsed_as(d, p + 36, v.vu_manufacturer_address),
        crate::dt::VuPartNumber::parsed_as(d, p + 72, v.vu_part_number),
        crate::dt::gen1::VuSerialNumber::parsed_as(d, p + 88, v.vu_serial_number),
        crate::dt::VuSoftwareIdentification::parsed_as(d, p + 96, v.vu_software_identification),
        crate::dt::VuManufacturingDate::parsed_as(d, p + 104, v.vu_manufacturing_date),
        crate::dt::gen1::VuApprovalNumber::parsed_as(d, p + 108, v.vu_approval_number),
{
}

/// The fields of a `VuIdentificationGen2` (126 bytes) in their order and at their byte offsets.
pub proof fn law_vu_identification_gen2_layout(d: Seq<u8>, p: int, v: crate::dt::gen2::VuIdentificationGen2)
    requires
        0 <= p && p + 126 <= d.len(),
        crate::dt::gen2::VuIdentificationGen2::parse_ok(d, p),
        crate::dt::gen2::VuIdentificationGen2::parsed_as(d, p, v),
    ensures
        crate::dt::VuManufacturerName::parsed_as(d, p, v.vu_manufacturer_name),
        crate::dt::VuManufacturerAddress::parsed_as(d, p + 36, v.vu_manufacturer_address),
        crate::dt::VuPartNumber::parsed_as(d, p + 72, v.vu_part_number),
        crate::dt::gen2::VuSerialNumberGen2::parsed_as(d, p + 88, v.vu_serial_number),
        crate::dt::VuSoftwareIdentification::parsed_as(d, p + 96, v.vu_software_identification),
        crate::dt::VuManufacturingDate::parsed_as(d, p + 104, v.vu_manufacturing_date),
        crate::dt::gen2::VuApprovalNumberGen2::parsed_as(d, p + 108, v.vu_approval_number),
        crate::dt::gen2::GenerationGen2::parsed_as(d, p + 124, v.vu_generation),
        crate::dt::gen2::VuAbilityGen2::parsed_as(d, p + 125, v.vu_ability),
{
}

/// The fields of a `VuIdentificationGen2V2` (138 bytes) in their order and at their byte offsets.
pub proof fn law_vu_identification_gen2_v2_layout(d: Seq<u8>, p: int, v: crate::dt::gen2v2::VuIdentificationGen2V2)
    requires
        0 <= p && p + 138 <= d.len(),
        crate::dt::gen2v2::VuIdentificationGen2V2::parse_ok(d, p),
        crate::dt::gen2v2::VuIdentificationGen2V2::parsed_as(d, p, v),
    ensures
        crate::dt::VuManufacturerName::parsed_as(d, p, v.vu_manufacturer_name),
        crate::dt::VuManufacturerAddress::parsed_as(d, p + 36, v.vu_manufacturer_address),
        crate::dt::VuPartNumber::parsed_as(d, p + 72, v.vu_part_number),
        crate::dt::gen2::VuSerialNumberGen2::parsed_as(d, p + 88, v.vu_serial_number),
        crate::dt::VuSoftwareIdentification::parsed_as(d, p + 96, v.vu_software_identification),
        crate::dt::VuManufacturingDate::parsed_as(d, p + 104, v.vu_manufacturing_date),
        crate::dt::gen2::VuApprovalNumberGen2::parsed_as(d, p + 108, v.vu_approval_number),
        crate::dt::gen2::GenerationGen2::parsed_as(d, p + 124, v.vu_generation),
        crate::dt::gen2::VuAbilityGen2::parsed_as(d, p + 125, v.vu_ability),
        crate::dt::gen2v2::VuDigitalMapVersion::parsed_as(d, p + 126, v.vu_digital_map_version),
{
}

/// The fields of a `VuLoadUnloadRecord` (58 bytes) in their order and at their byte offsets.
pub proof fn law_vu_load_unload_record_layout(d: Seq<u8>, p: int, v: crate::dt::gen2v2::VuLoadUnloadRecord)
    requires
        0 <= p && p + 58 <= d.len(),
        crate::dt::gen2v2::VuLoadUnloadRecord::parse_ok(d, p),
        crate::dt::gen2v2::VuLoadUnloadRecord::parsed_as(d, p, v),
    ensures
        crate::dt::TimeReal::parsed_as(d, p, v.time_stamp),
        crate::dt::gen2v2::OperationType::parsed_as(d, p + 4, v.operation_type),
        optional_as::<crate::dt::gen2::FullCardNumberAndGenerationGen2>(d, p + 5, v.card_number_and_gen_driver_slot),
        optional_as::<crate::dt::gen2::FullCardNumberAndGenerationGen2>(d, p + 24, v.card_number_and_gen_codriver_slot),
        crate::dt::gen2v2::GNSSPlaceAuthRecord::parsed_as(d, p + 43, v.gnss_place_auth_record),
        crate::dt::OdometerShort::parsed_as(d, p + 55, v.vehicle_odometer_value),
{
}

/// The fields of a `VuOverSpeedingControlData` (9 bytes) in their order and at their byte offsets.
pub proof fn law_vu_over_speeding_control_data_layout(d: Seq<u8>, p: int, v: crate::dt::gen1::VuOverSpeedingControlData)
    requires
        0 <= p && p + 9 <= d.len(),
        crate::dt::gen1::VuOverSpeedingControlData::parse_ok(d, p),
        crate::dt::gen1::VuOverSpeedingControlData::parsed_as(d, p, v),
    ensures
        crate::dt::TimeReal::parsed_as(d, p, v.last_overspeed_control_time),
        crate::dt::TimeReal::parsed_as(d, p + 4, v.first_overspeed_since),
        crate::dt::OverspeedNumber::parsed_as(d, p + 8, v.number_of_overspeed_since),
{
}

/// The fields of a `VuOverSpeedingControlDataGen2` (9 bytes) in their order and at their byte offsets.
pub proof fn law_vu_over_speeding_control_data_gen2_layout(d: Seq<u8>, p: int, v: crate::dt::gen2::VuOverSpeedingControlDataGen2)
    requires
        0 <= p && p + 9 <= d.len(),
        crate::dt::gen2::VuOverSpeedingControlDataGen2::parse_ok(d, p),
        crate::dt::gen2::VuOverSpeedingControlDataGen2::parsed_as(d, p, v),
    ensures
        optional_as::<crate::dt::TimeReal>(d, p, v.last_overspeed_control_time),
        optional_as::<crate::dt::TimeReal>(d, p + 4, v.first_overspeed_since),
        optional_as::<crate::dt::OverspeedNumber>(d, p + 8, v.number_of_overspeed_since),
{
}

/// The fields of a `VuOverSpeedingEventRecord` (31 bytes) in their order and at their byte offsets.
pub proof fn law_vu_over_speeding_event_record_layout(d: Seq<u8>, p: int, v: crate::dt::gen1::VuOverSpeedingEventRecord)
    requires
        0 <= p && p + 31 <= d.len(),
        crate::dt::gen1::VuOverSpeedingEventRecord::parse_ok(d, p),
        crate::dt::gen1::VuOverSpeedingEventRecord::parsed_as(d, p, v),
    ensures
        crate::dt::gen1::EventFaultType::parsed_as(d, p, v.event_type),
        crate::dt::EventFaultRecordPurpose::parsed_as(d, p + 1, v.event_record_purpose),
        crate::dt::TimeReal::parsed_as(d, p + 2, v.event_begin_time),
        crate::dt::TimeReal::parsed_as(d, p + 6, v.event_end_time),
        crate::dt::SpeedMax::parsed_as(d, p + 10, v.max_speed_value),
        crate::dt::SpeedAverage::parsed_as(d, p + 11, v.average_speed_value),
        crate::dt::gen1::FullCardNumber::parsed_as(d, p + 12, v.card_number_driver_slot),
        crate::dt::SimilarEventsNumber::parsed_as(d, p + 30, v.similar_events_number),
{
}

/// The fields of a `VuOverSpeedingEventRecordGen2` (32 bytes) in their order and at their byte offsets.
pub proof fn law_vu_over_speeding_event_record_gen2_layout(d: Seq<u8>, p: int, v: crate::dt::gen2::VuOverSpeedingEventRecordGen2)
    requires
        0 <= p && p + 32 <= d.len(),
        crate::dt::gen2::VuOverSpeedingEventRecordGen2::parse_ok(d, p),
        crate::dt::gen2::VuOverSpeedingEventRecordGen2::parsed_as(d, p, v),
    ensures
        crate::dt::gen2::EventFaultTypeGen2::parsed_as(d, p, v.event_type),
        crate::dt::EventFaultRecordPurpose::parsed_as(d, p + 1, v.event_record_purpose),
        crate::dt::TimeReal::parsed_as(d, p + 2, v.event_begin_time),
        crate::dt::TimeReal::parsed_as(d, p + 6, v.event_end_time),
        crate::dt::SpeedMax::parsed_as(d, p + 10, v.max_speed_value),
        crate::dt::SpeedAverage::parsed_as(d, p + 11, v.average_speed_value),
        optional_as::<crate::dt::gen2::FullCardNumberAndGenerationGen2>(d, p + 12, v.card_number_and_gen_driver_slot_begin),
        crate::dt::SimilarEventsNumber::parsed_as(d, p + 31, v.similar_events_number),
{
}

/// The fields of a `VuPlaceDailyWorkPeriodGen2` (40 bytes) in their order and at their byte offsets.
pub proof fn law_vu_place_daily_work_period_gen2_layout(d: Seq<u8>, p: int, v: crate::dt::gen2::VuPlaceDailyWorkPeriodGen2)
    requires
        0 <= p && p + 40 <= d.len(),
        crate::dt::gen2::VuPlaceDailyWorkPeriodGen2::parse_ok(d, p),
        crate::dt::gen2::VuPlaceDailyWorkPeriodGen2::parsed_as(d, p, v),
    ensures
        optional_as::<crate::dt::gen2::FullCardNumberAndGenerationGen2>(d, p, v.full_card_number_and_generation),
        crate::dt::gen2::PlaceRecordGen2::parsed_as(d, p + 19, v.place_record),
{
}

/// The fields of a `VuPlaceDailyWorkPeriodRecord` (28 bytes) in their order and at their byte offsets.
pub proof fn law_vu_place_daily_work_period_record_layout(d: Seq<u8>, p: int, v: crate::dt::gen1::VuPlaceDailyWorkPeriodRecord)
    requires
        0 <= p && p + 28 <= d.len(),
        crate::dt::gen1::VuPlaceDailyWorkPeriodRecord::parse_ok(d, p),
        crate::dt::gen1::VuPlaceDailyWorkPeriodRecord::parsed_as(d, p, v),
    ensures
        crate::dt::gen1::FullCardNumber::parsed_as(d, p, v.full_card_number),
        crate::dt::gen1::PlaceRecord::parsed_as(d, p + 18, v.place_record),
{
}

/// The fields of a `VuPlaceDailyWorkPeriodRecordGen2V2` (41 bytes) in their order and at their byte offsets.
pub proof fn law_vu_place_daily_work_period_record_gen2_v2_layout(d: Seq<u8>, p: int, v: crate::dt::gen2v2::VuPlaceDailyWorkPeriodRecordGen2V2)
    requires
        0 <= p && p + 41 <= d.len(),
        crate::dt::gen2v2::VuPlaceDailyWorkPeriodRecordGen2V2::parse_ok(d, p),
        crate::dt::gen2v2::VuPlaceDailyWorkPeriodRecordGen2V2::parsed_as(d, p, v),
    ensures
        optional_as::<crate::dt::gen2::FullCardNumberAndGenerationGen2>(d, p, v.full_card_number_and_generation),
        crate::dt::gen2v2::PlaceAuthRecord::parsed_as(d, p + 19, v.place_record),
{
}

/// The fields of a `VuPowerSupplyInterruptionRecordGen2` (87 bytes) in their order and at their byte offsets.
pub proof fn law_vu_power_supply_interruption_record_gen2_layout(d: Seq<u8>, p: int, v: crate::dt::gen2::VuPowerSupplyInterruptionRecordGen2)
    requires
        0 <= p && p + 87 <= d.len(),
        crate::dt::gen2::VuPowerSupplyInterruptionRecordGen2::parse_ok(d, p),
        crate::dt::gen2::VuPowerSupplyInterruptionRecordGen2::parsed_as(d, p, v),
    ensures
        crate::dt::gen2::EventFaultTypeGen2::parsed_as(d, p, v.event_type),
        crate::dt::EventFaultRecordPurpose::parsed_as(d, p + 1, v.event_record_purpose),
        crate::dt::TimeReal::parsed_as(d, p + 2, v.event_begin_time),
        crate::dt::TimeReal::parsed_as(d, p + 6, v.event_end_time),
        optional_as::<crate::dt::gen2::FullCardNumberAndGenerationGen2>(d, p + 10, v.card_number_and_gen_driver_slot_begin),
        optional_as::<crate::dt::gen2::FullCardNumberAndGenerationGen2>(d, p + 29, v.card_number_and_gen_driver_slot_end),
        optional_as::<crate::dt::gen2::FullCardNumberAndGenerationGen2>(d, p + 48, v.card_number_and_gen_codriver_slot_begin),
        optional_as::<crate::dt::gen2::FullCardNumberAndGenerationGen2>(d, p + 67, v.card_number_and_gen_codriver_slot_end),
        crate::dt::SimilarEventsNumber::parsed_as(d, p + 86, v.similar_events_number),
{
}

/// The fields of a `VuPowerSupplyInterruptionRecordGen2V2` (87 bytes) in their order and at their byte offsets.
pub proof fn law_vu_power_supply_interruption_record_gen2_v2_layout(d: Seq<u8>, p: int, v: crate::dt::gen2v2::VuPowerSupplyInterruptionRecordGen2V2)
    requires
        0 <= p && p + 87 <= d.len(),
        crate::dt::gen2v2::VuPowerSupplyInterruptionRecordGen2V2::parse_ok(d, p),
        crate::dt::gen2v2::VuPowerSupplyInterruptionRecordGen2V2::parsed_as(d, p, v),
    ensures
        crate::dt::gen2v2::EventFaultTypeGen2V2::parsed_as(d, p, v.event_type),
        crate::dt::EventFaultRecordPurpose::parsed_as(d, p + 1, v.event_record_purpose),
        crate::dt::TimeReal::parsed_as(d, p + 2, v.event_begin_time),
        crate::dt::TimeReal::parsed_as(d, p + 6, v.event_end_time),
        optional_as::<crate::dt::gen2::FullCardNumberAndGenerationGen2>(d, p + 10, v.card_number_and_gen_driver_slot_begin),
        optional_as::<crate::dt::gen2::FullCardNumberAndGenerationGen2>(d, p + 29, v.card_number_and_gen_driver_slot_end),
        optional_as::<crate::dt::gen2::FullCardNumberAndGenerationGen2>(d, p + 48, v.card_number_and_gen_codriver_slot_begin),
        optional_as::<crate::dt::gen2::FullCardNumberAndGenerationGen2>(d, p + 67, v.card_number_and_gen_codriver_slot_end),
        crate::dt::SimilarEventsNumber::parsed_as(d, p + 86, v.similar_events_number),
{
}

/// The fields of a `VuSoftwareIdentification` (8 bytes) in their order and at their byte offsets.
pub proof fn law_vu_software_identification_layout(d: Seq<u8>, p: int, v: crate::dt::VuSoftwareIdentification)
    requires
        0 <= p && p + 8 <= d.len(),
        crate::dt::VuSoftwareIdentification::parse_ok(d, p),
        crate::dt::VuSoftwareIdentification::parsed_as(d, p, v),
    ensures
        crate::dt::VuSoftwareVersion::parsed_as(d, p, v.vu_software_version),
        crate::dt::VuSoftInstallationDate::parsed_as(d, p + 4, v.vu_soft_installation_date),
{
}

/// The fields of a `VuSpecificConditionRecord` (5 bytes) in their order and at their byte offsets.
pub proof fn law_vu_specific_condition_record_layout(d: Seq<u8>, p: int, v: crate::dt::gen1::VuSpecificConditionRecord)
    requires
        0 <= p && p + 5 <= d.len(),
        crate::dt::gen1::VuSpecificConditionRecord::parse_ok(d, p),
        crate::dt::gen1::VuSpecificConditionRecord::parsed_as(d, p, v),
    ensures
        crate::dt::TimeReal::parsed_as(d, p, v.entry_time),
        crate::dt::gen1::SpecificConditionType::parsed_as(d, p + 4, v.specific_condition_type),
{
}

/// The fields of a `VuTimeAdjustmentRecord` (98 bytes) in their order and at their byte offsets.
pub proof fn law_vu_time_adjustment_record_layout(d: Seq<u8>, p: int, v: crate::dt::gen1::VuTimeAdjustmentRecord)
    requires
        0 <= p && p + 98 <= d.len(),
        crate::dt::gen1::VuTimeAdjustmentRecord::parse_ok(d, p),
        crate::dt::gen1::VuTimeAdjustmentRecord::parsed_as(d, p, v),
    ensures
        crate::dt::TimeReal::parsed_as(d, p, v.old_time_value),
        crate::dt::TimeReal::parsed_as(d, p + 4, v.new_time_value),
        crate::dt::Name::parsed_as(d, p + 8, v.workshop_name),
        crate::dt::Address::parsed_as(d, p + 44, v.workshop_address),
        crate::dt::gen1::FullCardNumber::parsed_as(d, p + 80, v.workshop_card_number),
{
}

/// The fields of a `VuTimeAdjustmentRecordGen2` (99 bytes) in their order and at their byte offsets.
pub proof fn law_vu_time_adjustment_record_gen2_layout(d: Seq<u8>, p: int, v: crate::dt::gen2::VuTimeAdjustmentRecordGen2)
    requires
        0 <= p && p + 99 <= d.len(),
        crate::dt::gen2::VuTimeAdjustmentRecordGen2::parse_ok(d, p),
        crate::dt::gen2::VuTimeAdjustmentRecordGen2::parsed_as(d, p, v),
    ensures
        crate::dt::TimeReal::parsed_as(d, p, v.old_time_value),
        crate::dt::TimeReal::parsed_as(d, p + 4, v.new_time_value),
        crate::dt::Name::parsed_as(d, p + 8, v.workshop_name),
        crate::dt::Address::parsed_as(d, p + 44, v.workshop_address),
        optional_as::<crate::dt::gen2::FullCardNumberAndGenerationGen2>(d, p + 80, v.workshop_card_number_and_generation),
{
}

} // verus!
