//! Laws of the code tables: the value that each byte stands for, as the
//! regulation's tables give it.
use crate::cursor::Parse;
use crate::dt::external::{ManufacturerCode, NationNumeric};
use vstd::prelude::*;

verus! {

/// The EventFaultRecordPurpose that a byte stands for, by the regulation's table.
pub proof fn law_event_fault_record_purpose_table(d: Seq<u8>, p: int, v: crate::dt::EventFaultRecordPurpose)
    requires
        0 <= p < d.len(),
        crate::dt::EventFaultRecordPurpose::parsed_as(d, p, v),
    ensures
        d[p] == 0x00 ==> v == crate::dt::EventFaultRecordPurpose::OneOfTenMostRecentOrLast,
        d[p] == 0x01 ==> v == crate::dt::EventFaultRecordPurpose::LongestEventLastTenDays,
        d[p] == 0x02 ==> v == crate::dt::EventFaultRecordPurpose::OneOfFiveLongestEventsLastYear,
        d[p] == 0x03 ==> v == crate::dt::EventFaultRecordPurpose::LastEventLastTenDays,
        d[p] == 0x04 ==> v == crate::dt::EventFaultRecordPurpose::MostSeriousEventLastTenDays,
        d[p] == 0x05 ==> v == crate::dt::EventFaultRecordPurpose::OneOfFiveMostSeriousEventsLastYear,
        d[p] == 0x06 ==> v == crate::dt::EventFaultRecordPurpose::FirstEventAfterLastCalibration,
        d[p] == 0x07 ==> v == crate::dt::EventFaultRecordPurpose::ActiveOrOngoing,
        !(d[p] == 0x00) && !(d[p] == 0x01) && !(d[p] == 0x02) && !(d[p] == 0x03) && !(d[p] == 0x04) && !(d[p] == 0x05) && !(d[p] == 0x06) && !(d[p] == 0x07) && (0x08 <= d[p] && d[p] <= 0x7F) ==> v == crate::dt::EventFaultRecordPurpose::RFU,
        !(d[p] == 0x00 || d[p] == 0x01 || d[p] == 0x02 || d[p] == 0x03 || d[p] == 0x04 || d[p] == 0x05 || d[p] == 0x06 || d[p] == 0x07 || (0x08 <= d[p] && d[p] <= 0x7F)) ==> v == crate::dt::EventFaultRecordPurpose::ManufacturerSpecific,
{
}

/// The CardSlotNumber that a byte stands for, by the regulation's table.
pub proof fn law_card_slot_number_table(d: Seq<u8>, p: int, v: crate::dt::CardSlotNumber)
    requires
        0 <= p < d.len(),
        crate::dt::CardSlotNumber::parsed_as(d, p, v),
    ensures
        d[p] == 0x00 ==> v == crate::dt::CardSlotNumber::DriverSlot,
        d[p] == 0x01 ==> v == crate::dt::CardSlotNumber::CoDriverSlot,
{
}

/// The ManualInputFlag that a byte stands for, by the regulation's table.
pub proof fn law_manual_input_flag_table(d: Seq<u8>, p: int, v: crate::dt::ManualInputFlag)
    requires
        0 <= p < d.len(),
        crate::dt::ManualInputFlag::parsed_as(d, p, v),
    ensures
        d[p] == 0x00 ==> v == crate::dt::ManualInputFlag::NoEntry,
        d[p] == 0x01 ==> v == crate::dt::ManualInputFlag::ManualEntries,
{
}

/// The EquipmentType that a byte stands for, by the regulation's table.
pub proof fn law_equipment_type_table(d: Seq<u8>, p: int, v: crate::dt::gen1::EquipmentType)
    requires
        0 <= p < d.len(),
        crate::dt::gen1::EquipmentType::parsed_as(d, p, v),
    ensures
        d[p] == 0x00 ==> v == crate::dt::gen1::EquipmentType::Reserved,
        d[p] == 0x01 ==> v == crate::dt::gen1::EquipmentType::DriverCard,
        d[p] == 0x02 ==> v == crate::dt::gen1::EquipmentType::WorkshopCard,
        d[p] == 0x03 ==> v == crate::dt::gen1::EquipmentType::ControlCard,
        d[p] == 0x04 ==> v == crate::dt::gen1::EquipmentType::CompanyCard,
        d[p] == 0x05 ==> v == crate::dt::gen1::EquipmentType::ManufacturingCard,
        d[p] == 0x06 ==> v == crate::dt::gen1::EquipmentType::VehicleUnit,
        d[p] == 0x07 ==> v == crate::dt::gen1::EquipmentType::MotionSensor,
        !(d[p] == 0x00 || d[p] == 0x01 || d[p] == 0x02 || d[p] == 0x03 || d[p] == 0x04 || d[p] == 0x05 || d[p] == 0x06 || d[p] == 0x07) ==> v == crate::dt::gen1::EquipmentType::RFU,
{
}

/// The CalibrationPurpose that a byte stands for, by the regulation's table.
pub proof fn law_calibration_purpose_table(d: Seq<u8>, p: int, v: crate::dt::gen1::CalibrationPurpose)
    requires
        0 <= p < d.len(),
        crate::dt::gen1::CalibrationPurpose::parsed_as(d, p, v),
    ensures
        d[p] == 0x00 ==> v == crate::dt::gen1::CalibrationPurpose::Reserved,
        d[p] == 0x01 ==> v == crate::dt::gen1::CalibrationPurpose::Activation,
        d[p] == 0x02 ==> v == crate::dt::gen1::CalibrationPurpose::FirstInstallation,
        d[p] == 0x03 ==> v == crate::dt::gen1::CalibrationPurpose::Installation,
        d[p] == 0x04 ==> v == crate::dt::gen1::CalibrationPurpose::PeriodicInspection,
{
}

/// The EventFaultType that a byte stands for, by the regulation's table.
pub proof fn law_event_fault_type_table(d: Seq<u8>, p: int, v: crate::dt::gen1::EventFaultType)
    requires
        0 <= p < d.len(),
        crate::dt::gen1::EventFaultType::parsed_as(d, p, v),
    ensures
        d[p] == 0x00 ==> v == crate::dt::gen1::EventFaultType::NoFurtherDetails,
        d[p] == 0x01 ==> v == crate::dt::gen1::EventFaultType::InsertionOfNonValidCard,
        d[p] == 0x02 ==> v == crate::dt::gen1::EventFaultType::CardConflict,
        d[p] == 0x03 ==> v == crate::dt::gen1::EventFaultType::TimeOverlap,
        d[p] == 0x04 ==> v == crate::dt::gen1::EventFaultType::DrivingWithoutAppropriateCard,
        d[p] == 0x05 ==> v == crate::dt::gen1::EventFaultType::CardInsertionWhileDriving,
        d[p] == 0x06 ==> v == crate::dt::gen1::EventFaultType::LastCardSessionNotCorrectlyClosed,
        d[p] == 0x07 ==> v == crate::dt::gen1::EventFaultType::OverSpeeding,
        d[p] == 0x08 ==> v == crate::dt::gen1::EventFaultType::PowerSupplyInterruption,
        d[p] == 0x09 ==> v == crate::dt::gen1::EventFaultType::MotionDataError,
        d[p] == 0x0A ==> v == crate::dt::gen1::EventFaultType::VehicleMotionConflict,
        !(d[p] == 0x00) && !(d[p] == 0x01) && !(d[p] == 0x02) && !(d[p] == 0x03) && !(d[p] == 0x04) && !(d[p] == 0x05) && !(d[p] == 0x06) && !(d[p] == 0x07) && !(d[p] == 0x08) && !(d[p] == 0x09) && !(d[p] == 0x0A) && (0x0B <= d[p] && d[p] <= 0x0F) ==> v == crate::dt::gen1::EventFaultType::RFU,
        d[p] == 0x10 ==> v == crate::dt::gen1::EventFaultType::VUSecurityBreachAttemptNoFurtherDetails,
        d[p] == 0x11 ==> v == crate::dt::gen1::EventFaultType::MotionSensorAuthenticationFailure,
        d[p] == 0x12 ==> v == crate::dt::gen1::EventFaultType::TachographCardAuthenticationFailure,
        d[p] == 0x13 ==> v == crate::dt::gen1::EventFaultType::UnauthorizedChangeOfMotionSensor,
        d[p] == 0x14 ==> v == crate::dt::gen1::EventFaultType::CardDataInputIntegrityError,
        d[p] == 0x15 ==> v == crate::dt::gen1::EventFaultType::StoredUserDataIntegrityError,
        d[p] == 0x16 ==> v == crate::dt::gen1::EventFaultType::InternalDataTransferError,
        d[p] == 0x17 ==> v == crate::dt::gen1::EventFaultType::UnauthorizedCaseOpening,
        d[p] == 0x18 ==> v == crate::dt::gen1::EventFaultType::HardwareSabotage,
        !(d[p] == 0x00) && !(d[p] == 0x01) && !(d[p] == 0x02) && !(d[p] == 0x03) && !(d[p] == 0x04) && !(d[p] == 0x05) && !(d[p] == 0x06) && !(d[p] == 0x07) && !(d[p] == 0x08) && !(d[p] == 0x09) && !(d[p] == 0x0A) && !(0x0B <= d[p] && d[p] <= 0x0F) && !(d[p] == 0x10) && !(d[p] == 0x11) && !(d[p] == 0x12) && !(d[p] == 0x13) && !(d[p] == 0x14) && !(d[p] == 0x15) && !(d[p] == 0x16) && !(d[p] == 0x17) && !(d[p] == 0x18) && (0x19 <= d[p] && d[p] <= 0x1F) ==> v == crate::dt::gen1::EventFaultType::RFU,
        d[p] == 0x20 ==> v == crate::dt::gen1::EventFaultType::SensorSecurityBreachAttemptNoFurtherDetails,
        d[p] == 0x21 ==> v == crate::dt::gen1::EventFaultType::SensorAuthenticationFailure,
        d[p] == 0x22 ==> v == crate::dt::gen1::EventFaultType::SensorStoredDataIntegrityError,
        d[p] == 0x23 ==> v == crate::dt::gen1::EventFaultType::SensorInternalDataTransferError,
        d[p] == 0x24 ==> v == crate::dt::gen1::EventFaultType::SensorUnauthorizedCaseOpening,
        d[p] == 0x25 ==> v == crate::dt::gen1::EventFaultType::SensorHardwareSabotage,
        !(d[p] == 0x00) && !(d[p] == 0x01) && !(d[p] == 0x02) && !(d[p] == 0x03) && !(d[p] == 0x04) && !(d[p] == 0x05) && !(d[p] == 0x06) && !(d[p] == 0x07) && !(d[p] == 0x08) && !(d[p] == 0x09) && !(d[p] == 0x0A) && !(0x0B <= d[p] && d[p] <= 0x0F) && !(d[p] == 0x10) && !(d[p] == 0x11) && !(d[p] == 0x12) && !(d[p] == 0x13) && !(d[p] == 0x14) && !(d[p] == 0x15) && !(d[p] == 0x16) && !(d[p] == 0x17) && !(d[p] == 0x18) && !(0x19 <= d[p] && d[p] <= 0x1F) && !(d[p] == 0x20) && !(d[p] == 0x21) && !(d[p] == 0x22) && !(d[p] == 0x23) && !(d[p] == 0x24) && !(d[p] == 0x25) && (0x26 <= d[p] && d[p] <= 0x2F) ==> v == crate::dt::gen1::EventFaultType::RFU,
        d[p] == 0x30 ==> v == crate::dt::gen1::EventFaultType::ControlDeviceFaultNoFurtherDetails,
        d[p] == 0x31 ==> v == crate::dt::gen1::EventFaultType::VUInternalFault,
        d[p] == 0x32 ==> v == crate::dt::gen1::EventFaultType::PrinterFault,
        d[p] == 0x33 ==> v == crate::dt::gen1::EventFaultType::DisplayFault,
        d[p] == 0x34 ==> v == crate::dt::gen1::EventFaultType::DownloadingFault,
        d[p] == 0x35 ==> v == crate::dt::gen1::EventFaultType::SensorFault,
        !(d[p] == 0x00) && !(d[p] == 0x01) && !(d[p] == 0x02) && !(d[p] == 0x03) && !(d[p] == 0x04) && !(d[p] == 0x05) && !(d[p] == 0x06) && !(d[p] == 0x07) && !(d[p] == 0x08) && !(d[p] == 0x09) && !(d[p] == 0x0A) && !(0x0B <= d[p] && d[p] <= 0x0F) && !(d[p] == 0x10) && !(d[p] == 0x11) && !(d[p] == 0x12) && !(d[p] == 0x13) && !(d[p] == 0x14) && !(d[p] == 0x15) && !(d[p] == 0x16) && !(d[p] == 0x17) && !(d[p] == 0x18) && !(0x19 <= d[p] && d[p] <= 0x1F) && !(d[p] == 0x20) && !(d[p] == 0x21) && !(d[p] == 0x22) && !(d[p] == 0x23) && !(d[p] == 0x24) && !(d[p] == 0x25) && !(0x26 <= d[p] && d[p] <= 0x2F) && !(d[p] == 0x30) && !(d[p] == 0x31) && !(d[p] == 0x32) && !(d[p] == 0x33) && !(d[p] == 0x34) && !(d[p] == 0x35) && (0x36 <= d[p] && d[p] <= 0x3F) ==> v == crate::dt::gen1::EventFaultType::RFU,
        d[p] == 0x40 ==> v == crate::dt::gen1::EventFaultType::NoFurtherDetails,
        !(d[p] == 0x00) && !(d[p] == 0x01) && !(d[p] == 0x02) && !(d[p] == 0x03) && !(d[p] == 0x04) && !(d[p] == 0x05) && !(d[p] == 0x06) && !(d[p] == 0x07) && !(d[p] == 0x08) && !(d[p] == 0x09) && !(d[p] == 0x0A) && !(0x0B <= d[p] && d[p] <= 0x0F) && !(d[p] == 0x10) && !(d[p] == 0x11) && !(d[p] == 0x12) && !(d[p] == 0x13) && !(d[p] == 0x14) && !(d[p] == 0x15) && !(d[p] == 0x16) && !(d[p] == 0x17) && !(d[p] == 0x18) && !(0x19 <= d[p] && d[p] <= 0x1F) && !(d[p] == 0x20) && !(d[p] == 0x21) && !(d[p] == 0x22) && !(d[p] == 0x23) && !(d[p] == 0x24) && !(d[p] == 0x25) && !(0x26 <= d[p] && d[p] <= 0x2F) && !(d[p] == 0x30) && !(d[p] == 0x31) && !(d[p] == 0x32) && !(d[p] == 0x33) && !(d[p] == 0x34) && !(d[p] == 0x35) && !(0x36 <= d[p] && d[p] <= 0x3F) && !(d[p] == 0x40) && (0x41 <= d[p] && d[p] <= 0x4F) ==> v == crate::dt::gen1::EventFaultType::RFU,
        !(d[p] == 0x00) && !(d[p] == 0x01) && !(d[p] == 0x02) && !(d[p] == 0x03) && !(d[p] == 0x04) && !(d[p] == 0x05) && !(d[p] == 0x06) && !(d[p] == 0x07) && !(d[p] == 0x08) && !(d[p] == 0x09) && !(d[p] == 0x0A) && !(0x0B <= d[p] && d[p] <= 0x0F) && !(d[p] == 0x10) && !(d[p] == 0x11) && !(d[p] == 0x12) && !(d[p] == 0x13) && !(d[p] == 0x14) && !(d[p] == 0x15) && !(d[p] == 0x16) && !(d[p] == 0x17) && !(d[p] == 0x18) && !(0x19 <= d[p] && d[p] <= 0x1F) && !(d[p] == 0x20) && !(d[p] == 0x21) && !(d[p] == 0x22) && !(d[p] == 0x23) && !(d[p] == 0x24) && !(d[p] == 0x25) && !(0x26 <= d[p] && d[p] <= 0x2F) && !(d[p] == 0x30) && !(d[p] == 0x31) && !(d[p] == 0x32) && !(d[p] == 0x33) && !(d[p] == 0x34) && !(d[p] == 0x35) && !(0x36 <= d[p] && d[p] <= 0x3F) && !(d[p] == 0x40) && !(0x41 <= d[p] && d[p] <= 0x4F) && (0x50 <= d[p] && d[p] <= 0x7F) ==> v == crate::dt::gen1::EventFaultType::RFU,
        !(d[p] == 0x00 || d[p] == 0x01 || d[p] == 0x02 || d[p] == 0x03 || d[p] == 0x04 || d[p] == 0x05 || d[p] == 0x06 || d[p] == 0x07 || d[p] == 0x08 || d[p] == 0x09 || d[p] == 0x0A || (0x0B <= d[p] && d[p] <= 0x0F) || d[p] == 0x10 || d[p] == 0x11 || d[p] == 0x12 || d[p] == 0x13 || d[p] == 0x14 || d[p] == 0x15 || d[p] == 0x16 || d[p] == 0x17 || d[p] == 0x18 || (0x19 <= d[p] && d[p] <= 0x1F) || d[p] == 0x20 || d[p] == 0x21 || d[p] == 0x22 || d[p] == 0x23 || d[p] == 0x24 || d[p] == 0x25 || (0x26 <= d[p] && d[p] <= 0x2F) || d[p] == 0x30 || d[p] == 0x31 || d[p] == 0x32 || d[p] == 0x33 || d[p] == 0x34 || d[p] == 0x35 || (0x36 <= d[p] && d[p] <= 0x3F) || d[p] == 0x40 || (0x41 <= d[p] && d[p] <= 0x4F) || (0x50 <= d[p] && d[p] <= 0x7F)) ==> v == crate::dt::gen1::EventFaultType::ManufacturerSpecific,
{
}

/// The SpecificConditionType that a byte stands for, by the regulation's table.
pub proof fn law_specific_condition_type_table(d: Seq<u8>, p: int, v: crate::dt::gen1::SpecificConditionType)
    requires
        0 <= p < d.len(),
        crate::dt::gen1::SpecificConditionType::parsed_as(d, p, v),
    ensures
        d[p] == 0x00 ==> v == crate::dt::gen1::SpecificConditionType::RFU,
        d[p] == 0x01 ==> v == crate::dt::gen1::SpecificConditionType::OutOfScopeBegin,
        d[p] == 0x02 ==> v == crate::dt::gen1::SpecificConditionType::OutOfScopeEnd,
        d[p] == 0x03 ==> v == crate::dt::gen1::SpecificConditionType::FerryTrainCrossingBegin,
        !(d[p] == 0x00 || d[p] == 0x01 || d[p] == 0x02 || d[p] == 0x03) ==> v == crate::dt::gen1::SpecificConditionType::RFU,
{
}

/// The RegionNumeric that a byte stands for, by the regulation's table.
pub proof fn law_region_numeric_table(d: Seq<u8>, p: int, v: crate::dt::gen1::RegionNumeric)
    requires
        0 <= p < d.len(),
        crate::dt::gen1::RegionNumeric::parsed_as(d, p, v),
    ensures
        d[p] == 0x00 ==> v == crate::dt::gen1::RegionNumeric::NoInformation,
        d[p] == 0x01 ==> v == crate::dt::gen1::RegionNumeric::Andalucia,
        d[p] == 0x02 ==> v == crate::dt::gen1::RegionNumeric::Aragon,
        d[p] == 0x03 ==> v == crate::dt::gen1::RegionNumeric::Asturias,
        d[p] == 0x04 ==> v == crate::dt::gen1::RegionNumeric::Cantabria,
        d[p] == 0x05 ==> v == crate::dt::gen1::RegionNumeric::Cataluna,
        d[p] == 0x06 ==> v == crate::dt::gen1::RegionNumeric::CastillaLeon,
        d[p] == 0x07 ==> v == crate::dt::gen1::RegionNumeric::CastillaLaMancha,
        d[p] == 0x08 ==> v == crate::dt::gen1::RegionNumeric::Valencia,
        d[p] == 0x09 ==> v == crate::dt::gen1::RegionNumeric::Extremadura,
        d[p] == 0x0A ==> v == crate::dt::gen1::RegionNumeric::Galicia,
        d[p] == 0x0B ==> v == crate::dt::gen1::RegionNumeric::Baleares,
        d[p] == 0x0C ==> v == crate::dt::gen1::RegionNumeric::Canarias,
        d[p] == 0x0D ==> v == crate::dt::gen1::RegionNumeric::LaRioja,
        d[p] == 0x0E ==> v == crate::dt::gen1::RegionNumeric::Madrid,
        d[p] == 0x0F ==> v == crate::dt::gen1::RegionNumeric::Murcia,
        d[p] == 0x10 ==> v == crate::dt::gen1::RegionNumeric::Navarra,
        d[p] == 0x11 ==> v == crate::dt::gen1::RegionNumeric::PaisVasco,
{
}

/// The EntryTypeDailyWorkPeriod that a byte stands for, by the regulation's table.
pub proof fn law_entry_type_daily_work_period_table(d: Seq<u8>, p: int, v: crate::dt::gen1::EntryTypeDailyWorkPeriod)
    requires
        0 <= p < d.len(),
        crate::dt::gen1::EntryTypeDailyWorkPeriod::parsed_as(d, p, v),
    ensures
        d[p] == 0x00 ==> v == crate::dt::gen1::EntryTypeDailyWorkPeriod::BeginRelatedTimeCardInsertionTimeOrTimeOfEntry,
        d[p] == 0x01 ==> v == crate::dt::gen1::EntryTypeDailyWorkPeriod::EndRelatedTimeCardWithdrawalTimeOrTimeOfEntry,
        d[p] == 0x02 ==> v == crate::dt::gen1::EntryTypeDailyWorkPeriod::BeginRelatedTimeManuallyEntered,
        d[p] == 0x03 ==> v == crate::dt::gen1::EntryTypeDailyWorkPeriod::EndRelatedTimeManuallyEntered,
        d[p] == 0x04 ==> v == crate::dt::gen1::EntryTypeDailyWorkPeriod::BeginRelatedTimeAssumedByVU,
        d[p] == 0x05 ==> v == crate::dt::gen1::EntryTypeDailyWorkPeriod::EndRelatedTimeAssumedByVU,
{
}

/// The RecordTypeGen2 that a byte stands for, by the regulation's table.
pub proof fn law_record_type_gen2_table(d: Seq<u8>, p: int, v: crate::dt::gen2::RecordTypeGen2)
    requires
        0 <= p < d.len(),
        crate::dt::gen2::RecordTypeGen2::parsed_as(d, p, v),
    ensures
        d[p] == 0x01 ==> v == crate::dt::gen2::RecordTypeGen2::ActivityChangeInfo,
        d[p] == 0x02 ==> v == crate::dt::gen2::RecordTypeGen2::CardSlotsStatus,
        d[p] == 0x03 ==> v == crate::dt::gen2::RecordTypeGen2::CurrentDateTime,
        d[p] == 0x04 ==> v == crate::dt::gen2::RecordTypeGen2::MemberStateCertificate,
        d[p] == 0x05 ==> v == crate::dt::gen2::RecordTypeGen2::OdometerValueMidnight,
        d[p] == 0x06 ==> v == crate::dt::gen2::RecordTypeGen2::DateOfDayDownloaded,
        d[p] == 0x07 ==> v == crate::dt::gen2::RecordTypeGen2::SensorPaired,
        d[p] == 0x08 ==> v == crate::dt::gen2::RecordTypeGen2::Signature,
        d[p] == 0x09 ==> v == crate::dt::gen2::RecordTypeGen2::SpecificConditionRecord,
        d[p] == 0x0A ==> v == crate::dt::gen2::RecordTypeGen2::VehicleIdentificationNumber,
        d[p] == 0x0B ==> v == crate::dt::gen2::RecordTypeGen2::VehicleRegistrationNumber,
        d[p] == 0x0C ==> v == crate::dt::gen2::RecordTypeGen2::VuCalibrationRecord,
        d[p] == 0x0D ==> v == crate::dt::gen2::RecordTypeGen2::VuCardIWRecord,
        d[p] == 0x0E ==> v == crate::dt::gen2::RecordTypeGen2::VuCardRecord,
        d[p] == 0x0F ==> v == crate::dt::gen2::RecordTypeGen2::VuCertificate,
        d[p] == 0x10 ==> v == crate::dt::gen2::RecordTypeGen2::VuCompanyLocksRecord,
        d[p] == 0x11 ==> v == crate::dt::gen2::RecordTypeGen2::VuControlActivityRecord,
        d[p] == 0x12 ==> v == crate::dt::gen2::RecordTypeGen2::VuDetailedSpeedBlock,
        d[p] == 0x13 ==> v == crate::dt::gen2::RecordTypeGen2::VuDownloadablePeriod,
        d[p] == 0x14 ==> v == crate::dt::gen2::RecordTypeGen2::VuDownloadActivityData,
        d[p] == 0x15 ==> v == crate::dt::gen2::RecordTypeGen2::VuEventRecord,
        d[p] == 0x16 ==> v == crate::dt::gen2::RecordTypeGen2::VuGNSSADRecord,
        d[p] == 0x17 ==> v == crate::dt::gen2::RecordTypeGen2::VuITSConsentRecord,
        d[p] == 0x18 ==> v == crate::dt::gen2::RecordTypeGen2::VuFaultRecord,
        d[p] == 0x19 ==> v == crate::dt::gen2::RecordTypeGen2::VuIdentification,
        d[p] == 0x1A ==> v == crate::dt::gen2::RecordTypeGen2::VuOverSpeedingControlData,
        d[p] == 0x1B ==> v == crate::dt::gen2::RecordTypeGen2::VuOverSpeedingEventRecord,
        d[p] == 0x1C ==> v == crate::dt::gen2::RecordTypeGen2::VuPlaceDailyWorkPeriodRecord,
        d[p] == 0x1D ==> v == crate::dt::gen2::RecordTypeGen2::VuTimeAdjustmentGNSSRecord,
        d[p] == 0x1E ==> v == crate::dt::gen2::RecordTypeGen2::VuTimeAdjustmentRecord,
        d[p] == 0x1F ==> v == crate::dt::gen2::RecordTypeGen2::VuPowerSupplyInterruptionRecord,
        d[p] == 0x20 ==> v == crate::dt::gen2::RecordTypeGen2::SensorPairedRecord,
        d[p] == 0x21 ==> v == crate::dt::gen2::RecordTypeGen2::SensorExternalGNSSCoupledRecord,
        !(d[p] == 0x00) && !(d[p] == 0x01) && !(d[p] == 0x02) && !(d[p] == 0x03) && !(d[p] == 0x04) && !(d[p] == 0x05) && !(d[p] == 0x06) && !(d[p] == 0x07) && !(d[p] == 0x08) && !(d[p] == 0x09) && !(d[p] == 0x0A) && !(d[p] == 0x0B) && !(d[p] == 0x0C) && !(d[p] == 0x0D) && !(d[p] == 0x0E) && !(d[p] == 0x0F) && !(d[p] == 0x10) && !(d[p] == 0x11) && !(d[p] == 0x12) && !(d[p] == 0x13) && !(d[p] == 0x14) && !(d[p] == 0x15) && !(d[p] == 0x16) && !(d[p] == 0x17) && !(d[p] == 0x18) && !(d[p] == 0x19) && !(d[p] == 0x1A) && !(d[p] == 0x1B) && !(d[p] == 0x1C) && !(d[p] == 0x1D) && !(d[p] == 0x1E) && !(d[p] == 0x1F) && !(d[p] == 0x20) && !(d[p] == 0x21) && (0x22 <= d[p] && d[p] <= 0x7F) ==> v == crate::dt::gen2::RecordTypeGen2::RFU,
        !(d[p] == 0x00 || d[p] == 0x01 || d[p] == 0x02 || d[p] == 0x03 || d[p] == 0x04 || d[p] == 0x05 || d[p] == 0x06 || d[p] == 0x07 || d[p] == 0x08 || d[p] == 0x09 || d[p] == 0x0A || d[p] == 0x0B || d[p] == 0x0C || d[p] == 0x0D || d[p] == 0x0E || d[p] == 0x0F || d[p] == 0x10 || d[p] == 0x11 || d[p] == 0x12 || d[p] == 0x13 || d[p] == 0x14 || d[p] == 0x15 || d[p] == 0x16 || d[p] == 0x17 || d[p] == 0x18 || d[p] == 0x19 || d[p] == 0x1A || d[p] == 0x1B || d[p] == 0x1C || d[p] == 0x1D || d[p] == 0x1E || d[p] == 0x1F || d[p] == 0x20 || d[p] == 0x21 || (0x22 <= d[p] && d[p] <= 0x7F)) ==> v == crate::dt::gen2::RecordTypeGen2::ManufacturerSpecific,
{
}

/// The EquipmentTypeGen2 that a byte stands for, by the regulation's table.
pub proof fn law_equipment_type_gen2_table(d: Seq<u8>, p: int, v: crate::dt::gen2::EquipmentTypeGen2)
    requires
        0 <= p < d.len(),
        crate::dt::gen2::EquipmentTypeGen2::parsed_as(d, p, v),
    ensures
        d[p] == 0x00 ==> v == crate::dt::gen2::EquipmentTypeGen2::Reserved,
        d[p] == 0x01 ==> v == crate::dt::gen2::EquipmentTypeGen2::DriverCard,
        d[p] == 0x02 ==> v == crate::dt::gen2::EquipmentTypeGen2::WorkshopCard,
        d[p] == 0x03 ==> v == crate::dt::gen2::EquipmentTypeGen2::ControlCard,
        d[p] == 0x04 ==> v == crate::dt::gen2::EquipmentTypeGen2::CompanyCard,
        d[p] == 0x05 ==> v == crate::dt::gen2::EquipmentTypeGen2::ManufacturingCard,
        d[p] == 0x06 ==> v == crate::dt::gen2::EquipmentTypeGen2::VehicleUnit,
        d[p] == 0x07 ==> v == crate::dt::gen2::EquipmentTypeGen2::MotionSensor,
        d[p] == 0x08 ==> v == crate::dt::gen2::EquipmentTypeGen2::GNSSFacility,
        d[p] == 0x09 ==> v == crate::dt::gen2::EquipmentTypeGen2::RemoteCommunicationDevice,
        d[p] == 0x0A ==> v == crate::dt::gen2::EquipmentTypeGen2::ITSinterfaceModule,
        d[p] == 0x0B ==> v == crate::dt::gen2::EquipmentTypeGen2::Plaque,
        d[p] == 0x0C ==> v == crate::dt::gen2::EquipmentTypeGen2::M1N1Adapter,
        d[p] == 0x0D ==> v == crate::dt::gen2::EquipmentTypeGen2::CAERCA,
        d[p] == 0x0E ==> v == crate::dt::gen2::EquipmentTypeGen2::CAMSCA,
        d[p] == 0x0F ==> v == crate::dt::gen2::EquipmentTypeGen2::ExternalGNSSConnection,
        d[p] == 0x10 ==> v == crate::dt::gen2::EquipmentTypeGen2::Unused,
        d[p] == 0x11 ==> v == crate::dt::gen2::EquipmentTypeGen2::DriverCardSign,
        d[p] == 0x12 ==> v == crate::dt::gen2::EquipmentTypeGen2::WorkshopCardSign,
        d[p] == 0x13 ==> v == crate::dt::gen2::EquipmentTypeGen2::VehicleUnitSign,
        !(d[p] == 0x00 || d[p] == 0x01 || d[p] == 0x02 || d[p] == 0x03 || d[p] == 0x04 || d[p] == 0x05 || d[p] == 0x06 || d[p] == 0x07 || d[p] == 0x08 || d[p] == 0x09 || d[p] == 0x0A || d[p] == 0x0B || d[p] == 0x0C || d[p] == 0x0D || d[p] == 0x0E || d[p] == 0x0F || d[p] == 0x10 || d[p] == 0x11 || d[p] == 0x12 || d[p] == 0x13) ==> v == crate::dt::gen2::EquipmentTypeGen2::RFU,
{
}

/// The GenerationGen2 that a byte stands for, by the regulation's table.
pub proof fn law_generation_gen2_table(d: Seq<u8>, p: int, v: crate::dt::gen2::GenerationGen2)
    requires
        0 <= p < d.len(),
        crate::dt::gen2::GenerationGen2::parsed_as(d, p, v),
    ensures
        d[p] == 0x00 ==> v == crate::dt::gen2::GenerationGen2::RFU,
        d[p] == 0x01 ==> v == crate::dt::gen2::GenerationGen2::Generation1,
        d[p] == 0x02 ==> v == crate::dt::gen2::GenerationGen2::Generation2,
        !(d[p] == 0x00 || d[p] == 0x01 || d[p] == 0x02) ==> v == crate::dt::gen2::GenerationGen2::RFU,
{
}

/// The EntryTypeDailyWorkPeriodGen2 that a byte stands for, by the regulation's table.
pub proof fn law_entry_type_daily_work_period_gen2_table(d: Seq<u8>, p: int, v: crate::dt::gen2::EntryTypeDailyWorkPeriodGen2)
    requires
        0 <= p < d.len(),
        crate::dt::gen2::EntryTypeDailyWorkPeriodGen2::parsed_as(d, p, v),
    ensures
        d[p] == 0x00 ==> v == crate::dt::gen2::EntryTypeDailyWorkPeriodGen2::BeginRelatedTimeCardInsertionTimeOrTimeOfEntry,
        d[p] == 0x01 ==> v == crate::dt::gen2::EntryTypeDailyWorkPeriodGen2::EndRelatedTimeCardWithdrawalTimeOrTimeOfEntry,
        d[p] == 0x02 ==> v == crate::dt::gen2::EntryTypeDailyWorkPeriodGen2::BeginRelatedTimeManuallyEntered,
        d[p] == 0x03 ==> v == crate::dt::gen2::EntryTypeDailyWorkPeriodGen2::EndRelatedTimeManuallyEntered,
{
}

/// The SpecificConditionTypeGen2 that a byte stands for, by the regulation's table.
pub proof fn law_specific_condition_type_gen2_table(d: Seq<u8>, p: int, v: crate::dt::gen2::SpecificConditionTypeGen2)
    requires
        0 <= p < d.len(),
        crate::dt::gen2::SpecificConditionTypeGen2::parsed_as(d, p, v),
    ensures
        d[p] == 0x00 ==> v == crate::dt::gen2::SpecificConditionTypeGen2::RFU,
        d[p] == 0x01 ==> v == crate::dt::gen2::SpecificConditionTypeGen2::OutOfScopeBegin,
        d[p] == 0x02 ==> v == crate::dt::gen2::SpecificConditionTypeGen2::OutOfScopeEnd,
        d[p] == 0x03 ==> v == crate::dt::gen2::SpecificConditionTypeGen2::FerryTrainCrossingBegin,
        d[p] == 0x04 ==> v == crate::dt::gen2::SpecificConditionTypeGen2::FerryTrainCrossingEnd,
        !(d[p] == 0x00 || d[p] == 0x01 || d[p] == 0x02 || d[p] == 0x03 || d[p] == 0x04) ==> v == crate::dt::gen2::SpecificConditionTypeGen2::RFU,
{
}

/// The EventFaultTypeGen2 that a byte stands for, by the regulation's table.
pub proof fn law_event_fault_type_gen2_table(d: Seq<u8>, p: int, v: crate::dt::gen2::EventFaultTypeGen2)
    requires
        0 <= p < d.len(),
        crate::dt::gen2::EventFaultTypeGen2::parsed_as(d, p, v),
    ensures
        d[p] == 0x00 ==> v == crate::dt::gen2::EventFaultTypeGen2::NoFurtherDetails,
        d[p] == 0x01 ==> v == crate::dt::gen2::EventFaultTypeGen2::InsertionOfNonValidCard,
        d[p] == 0x02 ==> v == crate::dt::gen2::EventFaultTypeGen2::CardConflict,
        d[p] == 0x03 ==> v == crate::dt::gen2::EventFaultTypeGen2::TimeOverlap,
        d[p] == 0x04 ==> v == crate::dt::gen2::EventFaultTypeGen2::DrivingWithoutAppropriateCard,
        d[p] == 0x05 ==> v == crate::dt::gen2::EventFaultTypeGen2::CardInsertionWhileDriving,
        d[p] == 0x06 ==> v == crate::dt::gen2::EventFaultTypeGen2::LastCardSessionNotCorrectlyClosed,
        d[p] == 0x07 ==> v == crate::dt::gen2::EventFaultTypeGen2::OverSpeeding,
        d[p] == 0x08 ==> v == crate::dt::gen2::EventFaultTypeGen2::PowerSupplyInterruption,
        d[p] == 0x09 ==> v == crate::dt::gen2::EventFaultTypeGen2::MotionDataError,
        d[p] == 0x0A ==> v == crate::dt::gen2::EventFaultTypeGen2::VehicleMotionConflict,
        d[p] == 0x0B ==> v == crate::dt::gen2::EventFaultTypeGen2::TimeConflict,
        d[p] == 0x0C ==> v == crate::dt::gen2::EventFaultTypeGen2::CommunicationErrorWithRemoteCommunicationFacility,
        d[p] == 0x0D ==> v == crate::dt::gen2::EventFaultTypeGen2::AbsenceOfPositionInfoFromGNSSReceiver,
        d[p] == 0x0E ==> v == crate::dt::gen2::EventFaultTypeGen2::CommunicationErrorWithExternalGNSSFacility,
        d[p] == 0x0F ==> v == crate::dt::gen2::EventFaultTypeGen2::RFU,
        d[p] == 0x10 ==> v == crate::dt::gen2::EventFaultTypeGen2::VUSecurityBreachAttemptNoFurtherDetails,
        d[p] == 0x11 ==> v == crate::dt::gen2::EventFaultTypeGen2::MotionSensorAuthenticationFailure,
        d[p] == 0x12 ==> v == crate::dt::gen2::EventFaultTypeGen2::TachographCardAuthenticationFailure,
        d[p] == 0x13 ==> v == crate::dt::gen2::EventFaultTypeGen2::UnauthorizedChangeOfMotionSensor,
        d[p] == 0x14 ==> v == crate::dt::gen2::EventFaultTypeGen2::CardDataInputIntegrityError,
        d[p] == 0x15 ==> v == crate::dt::gen2::EventFaultTypeGen2::StoredUserDataIntegrityError,
        d[p] == 0x16 ==> v == crate::dt::gen2::EventFaultTypeGen2::InternalDataTransferError,
        d[p] == 0x17 ==> v == crate::dt::gen2::EventFaultTypeGen2::UnauthorizedCaseOpening,
        d[p] == 0x18 ==> v == crate::dt::gen2::EventFaultTypeGen2::HardwareSabotage,
        d[p] == 0x19 ==> v == crate::dt::gen2::EventFaultTypeGen2::TamperDetectionOfGNSS,
        d[p] == 0x1A ==> v == crate::dt::gen2::EventFaultTypeGen2::ExternalGNSSFacilityAuthenticationFailure,
        d[p] == 0x1B ==> v == crate::dt::gen2::EventFaultTypeGen2::ExternalGNSSFacilityCertificateExpired,
        !(d[p] == 0x00) && !(d[p] == 0x01) && !(d[p] == 0x02) && !(d[p] == 0x03) && !(d[p] == 0x04) && !(d[p] == 0x05) && !(d[p] == 0x06) && !(d[p] == 0x07) && !(d[p] == 0x08) && !(d[p] == 0x09) && !(d[p] == 0x0A) && !(d[p] == 0x0B) && !(d[p] == 0x0C) && !(d[p] == 0x0D) && !(d[p] == 0x0E) && !(d[p] == 0x0F) && !(d[p] == 0x10) && !(d[p] == 0x11) && !(d[p] == 0x12) && !(d[p] == 0x13) && !(d[p] == 0x14) && !(d[p] == 0x15) && !(d[p] == 0x16) && !(d[p] == 0x17) && !(d[p] == 0x18) && !(d[p] == 0x19) && !(d[p] == 0x1A) && !(d[p] == 0x1B) && (0x1C <= d[p] && d[p] <= 0x1F) ==> v == crate::dt::gen2::EventFaultTypeGen2::RFU,
        d[p] == 0x20 ==> v == crate::dt::gen2::EventFaultTypeGen2::SensorSecurityBreachAttemptNoFurtherDetails,
        d[p] == 0x21 ==> v == crate::dt::gen2::EventFaultTypeGen2::SensorAuthenticationFailure,
        d[p] == 0x22 ==> v == crate::dt::gen2::EventFaultTypeGen2::SensorStoredDataIntegrityError,
        d[p] == 0x23 ==> v == crate::dt::gen2::EventFaultTypeGen2::SensorInternalDataTransferError,
        d[p] == 0x24 ==> v == crate::dt::gen2::EventFaultTypeGen2::SensorUnauthorizedCaseOpening,
        d[p] == 0x25 ==> v == crate::dt::gen2::EventFaultTypeGen2::SensorHardwareSabotage,
        !(d[p] == 0x00) && !(d[p] == 0x01) && !(d[p] == 0x02) && !(d[p] == 0x03) && !(d[p] == 0x04) && !(d[p] == 0x05) && !(d[p] == 0x06) && !(d[p] == 0x07) && !(d[p] == 0x08) && !(d[p] == 0x09) && !(d[p] == 0x0A) && !(d[p] == 0x0B) && !(d[p] == 0x0C) && !(d[p] == 0x0D) && !(d[p] == 0x0E) && !(d[p] == 0x0F) && !(d[p] == 0x10) && !(d[p] == 0x11) && !(d[p] == 0x12) && !(d[p] == 0x13) && !(d[p] == 0x14) && !(d[p] == 0x15) && !(d[p] == 0x16) && !(d[p] == 0x17) && !(d[p] == 0x18) && !(d[p] == 0x19) && !(d[p] == 0x1A) && !(d[p] == 0x1B) && !(0x1C <= d[p] && d[p] <= 0x1F) && !(d[p] == 0x20) && !(d[p] == 0x21) && !(d[p] == 0x22) && !(d[p] == 0x23) && !(d[p] == 0x24) && !(d[p] == 0x25) && (0x26 <= d[p] && d[p] <= 0x2F) ==> v == crate::dt::gen2::EventFaultTypeGen2::RFU,
        d[p] == 0x30 ==> v == crate::dt::gen2::EventFaultTypeGen2::ControlDeviceFaultNoFurtherDetails,
        d[p] == 0x31 ==> v == crate::dt::gen2::EventFaultTypeGen2::VUInternalFault,
        d[p] == 0x32 ==> v == crate::dt::gen2::EventFaultTypeGen2::PrinterFault,
        d[p] == 0x33 ==> v == crate::dt::gen2::EventFaultTypeGen2::DisplayFault,
        d[p] == 0x34 ==> v == crate::dt::gen2::EventFaultTypeGen2::DownloadingFault,
        d[p] == 0x35 ==> v == crate::dt::gen2::EventFaultTypeGen2::SensorFault,
        d[p] == 0x36 ==> v == crate::dt::gen2::EventFaultTypeGen2::InternalGNSSReceiver,
        d[p] == 0x37 ==> v == crate::dt::gen2::EventFaultTypeGen2::ExternalGNSSFacility,
        d[p] == 0x38 ==> v == crate::dt::gen2::EventFaultTypeGen2::RemoteCommunicationFacility,
        d[p] == 0x39 ==> v == crate::dt::gen2::EventFaultTypeGen2::ITSInterface,
        !(d[p] == 0x00) && !(d[p] == 0x01) && !(d[p] == 0x02) && !(d[p] == 0x03) && !(d[p] == 0x04) && !(d[p] == 0x05) && !(d[p] == 0x06) && !(d[p] == 0x07) && !(d[p] == 0x08) && !(d[p] == 0x09) && !(d[p] == 0x0A) && !(d[p] == 0x0B) && !(d[p] == 0x0C) && !(d[p] == 0x0D) && !(d[p] == 0x0E) && !(d[p] == 0x0F) && !(d[p] == 0x10) && !(d[p] == 0x11) && !(d[p] == 0x12) && !(d[p] == 0x13) && !(d[p] == 0x14) && !(d[p] == 0x15) && !(d[p] == 0x16) && !(d[p] == 0x17) && !(d[p] == 0x18) && !(d[p] == 0x19) && !(d[p] == 0x1A) && !(d[p] == 0x1B) && !(0x1C <= d[p] && d[p] <= 0x1F) && !(d[p] == 0x20) && !(d[p] == 0x21) && !(d[p] == 0x22) && !(d[p] == 0x23) && !(d[p] == 0x24) && !(d[p] == 0x25) && !(0x26 <= d[p] && d[p] <= 0x2F) && !(d[p] == 0x30) && !(d[p] == 0x31) && !(d[p] == 0x32) && !(d[p] == 0x33) && !(d[p] == 0x34) && !(d[p] == 0x35) && !(d[p] == 0x36) && !(d[p] == 0x37) && !(d[p] == 0x38) && !(d[p] == 0x39) && (0x3A <= d[p] && d[p] <= 0x3F) ==> v == crate::dt::gen2::EventFaultTypeGen2::RFU,
        d[p] == 0x40 ==> v == crate::dt::gen2::EventFaultTypeGen2::CardFaultNoFurtherDetails,
        !(d[p] == 0x00) && !(d[p] == 0x01) && !(d[p] == 0x02) && !(d[p] == 0x03) && !(d[p] == 0x04) && !(d[p] == 0x05) && !(d[p] == 0x06) && !(d[p] == 0x07) && !(d[p] == 0x08) && !(d[p] == 0x09) && !(d[p] == 0x0A) && !(d[p] == 0x0B) && !(d[p] == 0x0C) && !(d[p] == 0x0D) && !(d[p] == 0x0E) && !(d[p] == 0x0F) && !(d[p] == 0x10) && !(d[p] == 0x11) && !(d[p] == 0x12) && !(d[p] == 0x13) && !(d[p] == 0x14) && !(d[p] == 0x15) && !(d[p] == 0x16) && !(d[p] == 0x17) && !(d[p] == 0x18) && !(d[p] == 0x19) && !(d[p] == 0x1A) && !(d[p] == 0x1B) && !(0x1C <= d[p] && d[p] <= 0x1F) && !(d[p] == 0x20) && !(d[p] == 0x21) && !(d[p] == 0x22) && !(d[p] == 0x23) && !(d[p] == 0x24) && !(d[p] == 0x25) && !(0x26 <= d[p] && d[p] <= 0x2F) && !(d[p] == 0x30) && !(d[p] == 0x31) && !(d[p] == 0x32) && !(d[p] == 0x33) && !(d[p] == 0x34) && !(d[p] == 0x35) && !(d[p] == 0x36) && !(d[p] == 0x37) && !(d[p] == 0x38) && !(d[p] == 0x39) && !(0x3A <= d[p] && d[p] <= 0x3F) && !(d[p] == 0x40) && (0x41 <= d[p] && d[p] <= 0x4F) ==> v == crate::dt::gen2::EventFaultTypeGen2::RFU,
        !(d[p] == 0x00) && !(d[p] == 0x01) && !(d[p] == 0x02) && !(d[p] == 0x03) && !(d[p] == 0x04) && !(d[p] == 0x05) && !(d[p] == 0x06) && !(d[p] == 0x07) && !(d[p] == 0x08) && !(d[p] == 0x09) && !(d[p] == 0x0A) && !(d[p] == 0x0B) && !(d[p] == 0x0C) && !(d[p] == 0x0D) && !(d[p] == 0x0E) && !(d[p] == 0x0F) && !(d[p] == 0x10) && !(d[p] == 0x11) && !(d[p] == 0x12) && !(d[p] == 0x13) && !(d[p] == 0x14) && !(d[p] == 0x15) && !(d[p] == 0x16) && !(d[p] == 0x17) && !(d[p] == 0x18) && !(d[p] == 0x19) && !(d[p] == 0x1A) && !(d[p] == 0x1B) && !(0x1C <= d[p] && d[p] <= 0x1F) && !(d[p] == 0x20) && !(d[p] == 0x21) && !(d[p] == 0x22) && !(d[p] == 0x23) && !(d[p] == 0x24) && !(d[p] == 0x25) && !(0x26 <= d[p] && d[p] <= 0x2F) && !(d[p] == 0x30) && !(d[p] == 0x31) && !(d[p] == 0x32) && !(d[p] == 0x33) && !(d[p] == 0x34) && !(d[p] == 0x35) && !(d[p] == 0x36) && !(d[p] == 0x37) && !(d[p] == 0x38) && !(d[p] == 0x39) && !(0x3A <= d[p] && d[p] <= 0x3F) && !(d[p] == 0x40) && !(0x41 <= d[p] && d[p] <= 0x4F) && (0x50 <= d[p] && d[p] <= 0x7F) ==> v == crate::dt::gen2::EventFaultTypeGen2::RFU,
        !(d[p] == 0x00 || d[p] == 0x01 || d[p] == 0x02 || d[p] == 0x03 || d[p] == 0x04 || d[p] == 0x05 || d[p] == 0x06 || d[p] == 0x07 || d[p] == 0x08 || d[p] == 0x09 || d[p] == 0x0A || d[p] == 0x0B || d[p] == 0x0C || d[p] == 0x0D || d[p] == 0x0E || d[p] == 0x0F || d[p] == 0x10 || d[p] == 0x11 || d[p] == 0x12 || d[p] == 0x13 || d[p] == 0x14 || d[p] == 0x15 || d[p] == 0x16 || d[p] == 0x17 || d[p] == 0x18 || d[p] == 0x19 || d[p] == 0x1A || d[p] == 0x1B || (0x1C <= d[p] && d[p] <= 0x1F) || d[p] == 0x20 || d[p] == 0x21 || d[p] == 0x22 || d[p] == 0x23 || d[p] == 0x24 || d[p] == 0x25 || (0x26 <= d[p] && d[p] <= 0x2F) || d[p] == 0x30 || d[p] == 0x31 || d[p] == 0x32 || d[p] == 0x33 || d[p] == 0x34 || d[p] == 0x35 || d[p] == 0x36 || d[p] == 0x37 || d[p] == 0x38 || d[p] == 0x39 || (0x3A <= d[p] && d[p] <= 0x3F) || d[p] == 0x40 || (0x41 <= d[p] && d[p] <= 0x4F) || (0x50 <= d[p] && d[p] <= 0x7F)) ==> v == crate::dt::gen2::EventFaultTypeGen2::ManufacturerSpecific,
{
}

/// The CalibrationPurposeGen2 that a byte stands for, by the regulation's table.
pub proof fn law_calibration_purpose_gen2_table(d: Seq<u8>, p: int, v: crate::dt::gen2::CalibrationPurposeGen2)
    requires
        0 <= p < d.len(),
        crate::dt::gen2::CalibrationPurposeGen2::parsed_as(d, p, v),
    ensures
        d[p] == 0x00 ==> v == crate::dt::gen2::CalibrationPurposeGen2::Reserved,
        d[p] == 0x01 ==> v == crate::dt::gen2::CalibrationPurposeGen2::Activation,
        d[p] == 0x02 ==> v == crate::dt::gen2::CalibrationPurposeGen2::FirstInstallation,
        d[p] == 0x03 ==> v == crate::dt::gen2::CalibrationPurposeGen2::Installation,
        d[p] == 0x04 ==> v == crate::dt::gen2::CalibrationPurposeGen2::PeriodicInspection,
        d[p] == 0x05 ==> v == crate::dt::gen2::CalibrationPurposeGen2::EntryOfVRNByCompany,
        d[p] == 0x06 ==> v == crate::dt::gen2::CalibrationPurposeGen2::TimeAdjustmentWithoutCalibration,
        !(d[p] == 0x00) && !(d[p] == 0x01) && !(d[p] == 0x02) && !(d[p] == 0x03) && !(d[p] == 0x04) && !(d[p] == 0x05) && !(d[p] == 0x06) && (0x07 <= d[p] && d[p] <= 0x7F) ==> v == crate::dt::gen2::CalibrationPurposeGen2::RFU,
        !(d[p] == 0x00 || d[p] == 0x01 || d[p] == 0x02 || d[p] == 0x03 || d[p] == 0x04 || d[p] == 0x05 || d[p] == 0x06 || (0x07 <= d[p] && d[p] <= 0x7F)) ==> v == crate::dt::gen2::CalibrationPurposeGen2::ManufacturerSpecific,
{
}

/// The PositionAuthenticationStatus that a byte stands for, by the regulation's table.
pub proof fn law_position_authentication_status_table(d: Seq<u8>, p: int, v: crate::dt::gen2v2::PositionAuthenticationStatus)
    requires
        0 <= p < d.len(),
        crate::dt::gen2v2::PositionAuthenticationStatus::parsed_as(d, p, v),
    ensures
        d[p] == 0x00 ==> v == crate::dt::gen2v2::PositionAuthenticationStatus::NotAuthenticated,
        d[p] == 0x01 ==> v == crate::dt::gen2v2::PositionAuthenticationStatus::Authenticated,
        !(d[p] == 0x00 || d[p] == 0x01) ==> v == crate::dt::gen2v2::PositionAuthenticationStatus::RFU,
{
}

/// The OperationType that a byte stands for, by the regulation's table.
pub proof fn law_operation_type_table(d: Seq<u8>, p: int, v: crate::dt::gen2v2::OperationType)
    requires
        0 <= p < d.len(),
        crate::dt::gen2v2::OperationType::parsed_as(d, p, v),
    ensures
        d[p] == 0x00 ==> v == crate::dt::gen2v2::OperationType::RFU,
        d[p] == 0x01 ==> v == crate::dt::gen2v2::OperationType::LoadOperation,
        d[p] == 0x02 ==> v == crate::dt::gen2v2::OperationType::UnloadOperation,
        d[p] == 0x03 ==> v == crate::dt::gen2v2::OperationType::SimultaneousLoadUnloadOperation,
        !(d[p] == 0x00 || d[p] == 0x01 || d[p] == 0x02 || d[p] == 0x03) ==> v == crate::dt::gen2v2::OperationType::RFU,
{
}

/// The LoadType that a byte stands for, by the regulation's table.
pub proof fn law_load_type_table(d: Seq<u8>, p: int, v: crate::dt::gen2v2::LoadType)
    requires
        0 <= p < d.len(),
        crate::dt::gen2v2::LoadType::parsed_as(d, p, v),
    ensures
        d[p] == 0x00 ==> v == crate::dt::gen2v2::LoadType::UndefinedLoadType,
        d[p] == 0x01 ==> v == crate::dt::gen2v2::LoadType::Goods,
        d[p] == 0x02 ==> v == crate::dt::gen2v2::LoadType::Passengers,
        !(d[p] == 0x00 || d[p] == 0x01 || d[p] == 0x02) ==> v == crate::dt::gen2v2::LoadType::RFU,
{
}

/// The EventFaultTypeGen2V2 that a byte stands for, by the regulation's table.
pub proof fn law_event_fault_type_gen2_v2_table(d: Seq<u8>, p: int, v: crate::dt::gen2v2::EventFaultTypeGen2V2)
    requires
        0 <= p < d.len(),
        crate::dt::gen2v2::EventFaultTypeGen2V2::parsed_as(d, p, v),
    ensures
        d[p] == 0x00 ==> v == crate::dt::gen2v2::EventFaultTypeGen2V2::NoFurtherDetails,
        d[p] == 0x01 ==> v == crate::dt::gen2v2::EventFaultTypeGen2V2::InsertionOfNonValidCard,
        d[p] == 0x02 ==> v == crate::dt::gen2v2::EventFaultTypeGen2V2::CardConflict,
        d[p] == 0x03 ==> v == crate::dt::gen2v2::EventFaultTypeGen2V2::TimeOverlap,
        d[p] == 0x04 ==> v == crate::dt::gen2v2::EventFaultTypeGen2V2::DrivingWithoutAppropriateCard,
        d[p] == 0x05 ==> v == crate::dt::gen2v2::EventFaultTypeGen2V2::CardInsertionWhileDriving,
        d[p] == 0x06 ==> v == crate::dt::gen2v2::EventFaultTypeGen2V2::LastCardSessionNotCorrectlyClosed,
        d[p] == 0x07 ==> v == crate::dt::gen2v2::EventFaultTypeGen2V2::OverSpeeding,
        d[p] == 0x08 ==> v == crate::dt::gen2v2::EventFaultTypeGen2V2::PowerSupplyInterruption,
        d[p] == 0x09 ==> v == crate::dt::gen2v2::EventFaultTypeGen2V2::MotionDataError,
        d[p] == 0x0A ==> v == crate::dt::gen2v2::EventFaultTypeGen2V2::VehicleMotionConflict,
        d[p] == 0x0B ==> v == crate::dt::gen2v2::EventFaultTypeGen2V2::TimeConflict,
        d[p] == 0x0C ==> v == crate::dt::gen2v2::EventFaultTypeGen2V2::CommunicationErrorWithRemoteCommunicationFacility,
        d[p] == 0x0D ==> v == crate::dt::gen2v2::EventFaultTypeGen2V2::AbsenceOfPositionInfoFromGNSSReceiver,
        d[p] == 0x0E ==> v == crate::dt::gen2v2::EventFaultTypeGen2V2::CommunicationErrorWithExternalGNSSFacility,
        d[p] == 0x0F ==> v == crate::dt::gen2v2::EventFaultTypeGen2V2::GNSSAnomaly,
        d[p] == 0x10 ==> v == crate::dt::gen2v2::EventFaultTypeGen2V2::VUSecurityBreachAttemptNoFurtherDetails,
        d[p] == 0x11 ==> v == crate::dt::gen2v2::EventFaultTypeGen2V2::MotionSensorAuthenticationFailure,
        d[p] == 0x12 ==> v == crate::dt::gen2v2::EventFaultTypeGen2V2::TachographCardAuthenticationFailure,
        d[p] == 0x13 ==> v == crate::dt::gen2v2::EventFaultTypeGen2V2::UnauthorizedChangeOfMotionSensor,
        d[p] == 0x14 ==> v == crate::dt::gen2v2::EventFaultTypeGen2V2::CardDataInputIntegrityError,
        d[p] == 0x15 ==> v == crate::dt::gen2v2::EventFaultTypeGen2V2::StoredUserDataIntegrityError,
        d[p] == 0x16 ==> v == crate::dt::gen2v2::EventFaultTypeGen2V2::InternalDataTransferError,
        d[p] == 0x17 ==> v == crate::dt::gen2v2::EventFaultTypeGen2V2::UnauthorizedCaseOpening,
        d[p] == 0x18 ==> v == crate::dt::gen2v2::EventFaultTypeGen2V2::HardwareSabotage,
        d[p] == 0x19 ==> v == crate::dt::gen2v2::EventFaultTypeGen2V2::TamperDetectionOfGNSS,
        d[p] == 0x1A ==> v == crate::dt::gen2v2::EventFaultTypeGen2V2::ExternalGNSSFacilityAuthenticationFailure,
        d[p] == 0x1B ==> v == crate::dt::gen2v2::EventFaultTypeGen2V2::ExternalGNSSFacilityCertificateExpired,
        d[p] == 0x1C ==> v == crate::dt::gen2v2::EventFaultTypeGen2V2::InconsistencyBetweenMotionDataAndStoredDriverActivityData,
        !(d[p] == 0x00) && !(d[p] == 0x01) && !(d[p] == 0x02) && !(d[p] == 0x03) && !(d[p] == 0x04) && !(d[p] == 0x05) && !(d[p] == 0x06) && !(d[p] == 0x07) && !(d[p] == 0x08) && !(d[p] == 0x09) && !(d[p] == 0x0A) && !(d[p] == 0x0B) && !(d[p] == 0x0C) && !(d[p] == 0x0D) && !(d[p] == 0x0E) && !(d[p] == 0x0F) && !(d[p] == 0x10) && !(d[p] == 0x11) && !(d[p] == 0x12) && !(d[p] == 0x13) && !(d[p] == 0x14) && !(d[p] == 0x15) && !(d[p] == 0x16) && !(d[p] == 0x17) && !(d[p] == 0x18) && !(d[p] == 0x19) && !(d[p] == 0x1A) && !(d[p] == 0x1B) && !(d[p] == 0x1C) && (0x1D <= d[p] && d[p] <= 0x1F) ==> v == crate::dt::gen2v2::EventFaultTypeGen2V2::RFU,
        d[p] == 0x20 ==> v == crate::dt::gen2v2::EventFaultTypeGen2V2::SensorSecurityBreachAttemptNoFurtherDetails,
        d[p] == 0x21 ==> v == crate::dt::gen2v2::EventFaultTypeGen2V2::SensorAuthenticationFailure,
        d[p] == 0x22 ==> v == crate::dt::gen2v2::EventFaultTypeGen2V2::SensorStoredDataIntegrityError,
        d[p] == 0x23 ==> v == crate::dt::gen2v2::EventFaultTypeGen2V2::SensorInternalDataTransferError,
        d[p] == 0x24 ==> v == crate::dt::gen2v2::EventFaultTypeGen2V2::SensorUnauthorizedCaseOpening,
        d[p] == 0x25 ==> v == crate::dt::gen2v2::EventFaultTypeGen2V2::SensorHardwareSabotage,
        !(d[p] == 0x00) && !(d[p] == 0x01) && !(d[p] == 0x02) && !(d[p] == 0x03) && !(d[p] == 0x04) && !(d[p] == 0x05) && !(d[p] == 0x06) && !(d[p] == 0x07) && !(d[p] == 0x08) && !(d[p] == 0x09) && !(d[p] == 0x0A) && !(d[p] == 0x0B) && !(d[p] == 0x0C) && !(d[p] == 0x0D) && !(d[p] == 0x0E) && !(d[p] == 0x0F) && !(d[p] == 0x10) && !(d[p] == 0x11) && !(d[p] == 0x12) && !(d[p] == 0x13) && !(d[p] == 0x14) && !(d[p] == 0x15) && !(d[p] == 0x16) && !(d[p] == 0x17) && !(d[p] == 0x18) && !(d[p] == 0x19) && !(d[p] == 0x1A) && !(d[p] == 0x1B) && !(d[p] == 0x1C) && !(0x1D <= d[p] && d[p] <= 0x1F) && !(d[p] == 0x20) && !(d[p] == 0x21) && !(d[p] == 0x22) && !(d[p] == 0x23) && !(d[p] == 0x24) && !(d[p] == 0x25) && (0x26 <= d[p] && d[p] <= 0x2F) ==> v == crate::dt::gen2v2::EventFaultTypeGen2V2::RFU,
        d[p] == 0x30 ==> v == crate::dt::gen2v2::EventFaultTypeGen2V2::ControlDeviceFaultNoFurtherDetails,
        d[p] == 0x31 ==> v == crate::dt::gen2v2::EventFaultTypeGen2V2::VUInternalFault,
        d[p] == 0x32 ==> v == crate::dt::gen2v2::EventFaultTypeGen2V2::PrinterFault,
        d[p] == 0x33 ==> v == crate::dt::gen2v2::EventFaultTypeGen2V2::DisplayFault,
        d[p] == 0x34 ==> v == crate::dt::gen2v2::EventFaultTypeGen2V2::DownloadingFault,
        d[p] == 0x35 ==> v == crate::dt::gen2v2::EventFaultTypeGen2V2::SensorFault,
        d[p] == 0x36 ==> v == crate::dt::gen2v2::EventFaultTypeGen2V2::InternalGNSSReceiver,
        d[p] == 0x37 ==> v == crate::dt::gen2v2::EventFaultTypeGen2V2::ExternalGNSSFacility,
        d[p] == 0x38 ==> v == crate::dt::gen2v2::EventFaultTypeGen2V2::RemoteCommunicationFacility,
        d[p] == 0x39 ==> v == crate::dt::gen2v2::EventFaultTypeGen2V2::ITSInterface,
        d[p] == 0x3A ==> v == crate::dt::gen2v2::EventFaultTypeGen2V2::InternalSensorFault,
        !(d[p] == 0x00) && !(d[p] == 0x01) && !(d[p] == 0x02) && !(d[p] == 0x03) && !(d[p] == 0x04) && !(d[p] == 0x05) && !(d[p] == 0x06) && !(d[p] == 0x07) && !(d[p] == 0x08) && !(d[p] == 0x09) && !(d[p] == 0x0A) && !(d[p] == 0x0B) && !(d[p] == 0x0C) && !(d[p] == 0x0D) && !(d[p] == 0x0E) && !(d[p] == 0x0F) && !(d[p] == 0x10) && !(d[p] == 0x11) && !(d[p] == 0x12) && !(d[p] == 0x13) && !(d[p] == 0x14) && !(d[p] == 0x15) && !(d[p] == 0x16) && !(d[p] == 0x17) && !(d[p] == 0x18) && !(d[p] == 0x19) && !(d[p] == 0x1A) && !(d[p] == 0x1B) && !(d[p] == 0x1C) && !(0x1D <= d[p] && d[p] <= 0x1F) && !(d[p] == 0x20) && !(d[p] == 0x21) && !(d[p] == 0x22) && !(d[p] == 0x23) && !(d[p] == 0x24) && !(d[p] == 0x25) && !(0x26 <= d[p] && d[p] <= 0x2F) && !(d[p] == 0x30) && !(d[p] == 0x31) && !(d[p] == 0x32) && !(d[p] == 0x33) && !(d[p] == 0x34) && !(d[p] == 0x35) && !(d[p] == 0x36) && !(d[p] == 0x37) && !(d[p] == 0x38) && !(d[p] == 0x39) && !(d[p] == 0x3A) && (0x3B <= d[p] && d[p] <= 0x3F) ==> v == crate::dt::gen2v2::EventFaultTypeGen2V2::RFU,
        d[p] == 0x40 ==> v == crate::dt::gen2v2::EventFaultTypeGen2V2::CardFaultNoFurtherDetails,
        !(d[p] == 0x00) && !(d[p] == 0x01) && !(d[p] == 0x02) && !(d[p] == 0x03) && !(d[p] == 0x04) && !(d[p] == 0x05) && !(d[p] == 0x06) && !(d[p] == 0x07) && !(d[p] == 0x08) && !(d[p] == 0x09) && !(d[p] == 0x0A) && !(d[p] == 0x0B) && !(d[p] == 0x0C) && !(d[p] == 0x0D) && !(d[p] == 0x0E) && !(d[p] == 0x0F) && !(d[p] == 0x10) && !(d[p] == 0x11) && !(d[p] == 0x12) && !(d[p] == 0x13) && !(d[p] == 0x14) && !(d[p] == 0x15) && !(d[p] == 0x16) && !(d[p] == 0x17) && !(d[p] == 0x18) && !(d[p] == 0x19) && !(d[p] == 0x1A) && !(d[p] == 0x1B) && !(d[p] == 0x1C) && !(0x1D <= d[p] && d[p] <= 0x1F) && !(d[p] == 0x20) && !(d[p] == 0x21) && !(d[p] == 0x22) && !(d[p] == 0x23) && !(d[p] == 0x24) && !(d[p] == 0x25) && !(0x26 <= d[p] && d[p] <= 0x2F) && !(d[p] == 0x30) && !(d[p] == 0x31) && !(d[p] == 0x32) && !(d[p] == 0x33) && !(d[p] == 0x34) && !(d[p] == 0x35) && !(d[p] == 0x36) && !(d[p] == 0x37) && !(d[p] == 0x38) && !(d[p] == 0x39) && !(d[p] == 0x3A) && !(0x3B <= d[p] && d[p] <= 0x3F) && !(d[p] == 0x40) && (0x41 <= d[p] && d[p] <= 0x4F) ==> v == crate::dt::gen2v2::EventFaultTypeGen2V2::RFU,
        !(d[p] == 0x00) && !(d[p] == 0x01) && !(d[p] == 0x02) && !(d[p] == 0x03) && !(d[p] == 0x04) && !(d[p] == 0x05) && !(d[p] == 0x06) && !(d[p] == 0x07) && !(d[p] == 0x08) && !(d[p] == 0x09) && !(d[p] == 0x0A) && !(d[p] == 0x0B) && !(d[p] == 0x0C) && !(d[p] == 0x0D) && !(d[p] == 0x0E) && !(d[p] == 0x0F) && !(d[p] == 0x10) && !(d[p] == 0x11) && !(d[p] == 0x12) && !(d[p] == 0x13) && !(d[p] == 0x14) && !(d[p] == 0x15) && !(d[p] == 0x16) && !(d[p] == 0x17) && !(d[p] == 0x18) && !(d[p] == 0x19) && !(d[p] == 0x1A) && !(d[p] == 0x1B) && !(d[p] == 0x1C) && !(0x1D <= d[p] && d[p] <= 0x1F) && !(d[p] == 0x20) && !(d[p] == 0x21) && !(d[p] == 0x22) && !(d[p] == 0x23) && !(d[p] == 0x24) && !(d[p] == 0x25) && !(0x26 <= d[p] && d[p] <= 0x2F) && !(d[p] == 0x30) && !(d[p] == 0x31) && !(d[p] == 0x32) && !(d[p] == 0x33) && !(d[p] == 0x34) && !(d[p] == 0x35) && !(d[p] == 0x36) && !(d[p] == 0x37) && !(d[p] == 0x38) && !(d[p] == 0x39) && !(d[p] == 0x3A) && !(0x3B <= d[p] && d[p] <= 0x3F) && !(d[p] == 0x40) && !(0x41 <= d[p] && d[p] <= 0x4F) && (0x50 <= d[p] && d[p] <= 0x7F) ==> v == crate::dt::gen2v2::EventFaultTypeGen2V2::RFU,
        !(d[p] == 0x00 || d[p] == 0x01 || d[p] == 0x02 || d[p] == 0x03 || d[p] == 0x04 || d[p] == 0x05 || d[p] == 0x06 || d[p] == 0x07 || d[p] == 0x08 || d[p] == 0x09 || d[p] == 0x0A || d[p] == 0x0B || d[p] == 0x0C || d[p] == 0x0D || d[p] == 0x0E || d[p] == 0x0F || d[p] == 0x10 || d[p] == 0x11 || d[p] == 0x12 || d[p] == 0x13 || d[p] == 0x14 || d[p] == 0x15 || d[p] == 0x16 || d[p] == 0x17 || d[p] == 0x18 || d[p] == 0x19 || d[p] == 0x1A || d[p] == 0x1B || d[p] == 0x1C || (0x1D <= d[p] && d[p] <= 0x1F) || d[p] == 0x20 || d[p] == 0x21 || d[p] == 0x22 || d[p] == 0x23 || d[p] == 0x24 || d[p] == 0x25 || (0x26 <= d[p] && d[p] <= 0x2F) || d[p] == 0x30 || d[p] == 0x31 || d[p] == 0x32 || d[p] == 0x33 || d[p] == 0x34 || d[p] == 0x35 || d[p] == 0x36 || d[p] == 0x37 || d[p] == 0x38 || d[p] == 0x39 || d[p] == 0x3A || (0x3B <= d[p] && d[p] <= 0x3F) || d[p] == 0x40 || (0x41 <= d[p] && d[p] <= 0x4F) || (0x50 <= d[p] && d[p] <= 0x7F)) ==> v == crate::dt::gen2v2::EventFaultTypeGen2V2::ManufacturerSpecific,
{
}

/// The manufacturer that a byte names, by the regulation's table.
pub proof fn law_manufacturer_code_table(d: Seq<u8>, p: int, v: ManufacturerCode)
    requires
        0 <= p < d.len(),
        ManufacturerCode::parsed_as(d, p, v),
    ensures
        d[p] == 0x10 ==> v.0@ == "Actia S.A."@,
        d[p] == 0x11 ==> v.0@ == "Security Printing and Systems Ltd."@,
        d[p] == 0x12 ==> v.0@ == "Austria Card Plastikkarten und Ausweissysteme GmbH"@,
        d[p] == 0x13 ==> v.0@ == "Agencija za komercijalnu djelatnost d.o.o (AKD)"@,
        d[p] == 0x14 ==> v.0@ == "ALIK Automotive GmbH"@,
        d[p] == 0x15 ==> v.0@ == "ASELSAN"@,
        d[p] == 0x16 ==> v.0@ == "Asia Tacho Kart LLC"@,
        d[p] == 0x17 ==> v.0@ == "Real Casa de la Moneda"@,
        d[p] == 0x18 ==> v.0@ == "BARBÉ S.R.L."@,
        d[p] == 0x19 ==> v.0@ == "BogArt Sp. z o.o."@,
        d[p] == 0x20 ==> v.0@ == "CETIS d.d."@,
        d[p] == 0x21 ==> v.0@ == "certSIGN"@,
        d[p] == 0x22 ==> v.0@ == "RUE Cryptotech"@,
        d[p] == 0x23 ==> v.0@ == "Centr Modernizatcii Transporta OOO (CMT - LLC)"@,
        d[p] == 0x24 ==> v.0@ == "Pars Ar-Ge Ltd"@,
        d[p] == 0x25 ==> v.0@ == "Cardplus Sverige AB"@,
        d[p] == 0x28 ==> v.0@ == "Datakom"@,
        d[p] == 0x29 ==> v.0@ == "DVLA"@,
        d[p] == 0x30 ==> v.0@ == "IDEMIA The Netherlands BV"@,
        d[p] == 0x32 ==> v.0@ == "EFKON AG"@,
        d[p] == 0x35 ==> v.0@ == "Eurocard LLC"@,
        d[p] == 0x38 ==> v.0@ == "Fábrica Nacional de Moneda y Timbre"@,
        d[p] == 0x39 ==> v.0@ == "First Print Yard"@,
        d[p] == 0x40 ==> v.0@ == "Giesecke & Devrient GmbH"@,
        d[p] == 0x43 ==> v.0@ == "Giesecke & Devrient GB Ltd."@,
        d[p] == 0x44 ==> v.0@ == "Giesecke & Devrient sa/nv"@,
        d[p] == 0x45 ==> v.0@ == "GrafoCARD"@,
        d[p] == 0x48 ==> v.0@ == "Hungarian Banknote Printing Co. Ltd."@,
        d[p] == 0x49 ==> v.0@ == "Haug GmbH"@,
        d[p] == 0x4A ==> v.0@ == "Hegard Sp. z o.o."@,
        d[p] == 0x50 ==> v.0@ == "Imprimerie Nationale"@,
        d[p] == 0x51 ==> v.0@ == "Imprensa Nacional-Casa da Moeda, SA"@,
        d[p] == 0x52 ==> v.0@ == "InfoCamere S.C.p.A"@,
        d[p] == 0x53 ==> v.0@ == "Intellic Germany GmbH - ZF Group CVS"@,
        d[p] == 0x55 ==> v.0@ == "INTELLIGENT TELEMATICS SYSTEMS FOR TRANSPORT (its-t.llc)"@,
        d[p] == 0x60 ==> v.0@ == "Kraftfahrt-Bundesamt (KBA)"@,
        d[p] == 0x61 ==> v.0@ == "KazTACHOnet LLP"@,
        d[p] == 0x68 ==> v.0@ == "LESIKAR a.s."@,
        d[p] == 0x69 ==> v.0@ == "LEDA-SL"@,
        d[p] == 0x78 ==> v.0@ == "NAP automotive Produkte GmbH"@,
        d[p] == 0x79 ==> v.0@ == "NATIONAL BANK OF SERBIA"@,
        d[p] == 0x81 ==> v.0@ == "Morpho e-documents"@,
        d[p] == 0x82 ==> v.0@ == "ORGA Zelenograd ZAO"@,
        d[p] == 0x84 ==> v.0@ == "ORGA Kartensysteme GmbH"@,
        d[p] == 0x88 ==> v.0@ == "Asseco - Central Europe a.s."@,
        d[p] == 0x89 ==> v.0@ == "Polska Wytwórnia Papierów Wartosciowych S.A. - PWPW S.A."@,
        d[p] == 0x8A ==> v.0@ == "Papiery Powlekane Pasaco Sp. z o.o."@,
        d[p] == 0x98 ==> v.0@ == "TahoNetSoft"@,
        d[p] == 0xA1 ==> v.0@ == "Continental Automotive Technologies"@,
        d[p] == 0xA2 ==> v.0@ == "Stoneridge Electronics AB"@,
        d[p] == 0xA3 ==> v.0@ == "Thales"@,
        d[p] == 0xA4 ==> v.0@ == "3M Security Printing and Systems Ltd."@,
        d[p] == 0xA5 ==> v.0@ == "STMicroelectronics - Incard Division"@,
        d[p] == 0xA6 ==> v.0@ == "STÁTNÍ TISKÁRNA CENIN, státní podnik"@,
        d[p] == 0xAB ==> v.0@ == "T-Systems International GmbH"@,
        d[p] == 0xAC ==> v.0@ == "Thales DIS Schweiz AG"@,
        d[p] == 0xAD ==> v.0@ == "Trüb Baltic AS"@,
        d[p] == 0xAE ==> v.0@ == "TEMPEST a.s."@,
        d[p] == 0xAF ==> v.0@ == "Trueb - DEMAX PLC"@,
        d[p] == 0xB0 ==> v.0@ == "TAYROL LIMITED"@,
        d[p] == 0xB1 ==> v.0@ == "UŽDAROJI AKCINĖ BENDROVĖ \"LODVILA\""@,
        d[p] == 0xD8 ==> v.0@ == "Union of Chambers and Commodity Exchanges of Turkey - TOBB"@,
        d[p] == 0xE0 ==> v.0@ == "Turker Roll Paper Trade"@,
{
}

/// The nation that a byte names, by the regulation's table.
pub proof fn law_nation_numeric_table(d: Seq<u8>, p: int, v: NationNumeric)
    requires
        0 <= p < d.len(),
        NationNumeric::parsed_as(d, p, v),
    ensures
        d[p] == 0x00 ==> v.0@ == "No information available"@,
        d[p] == 0x01 ==> v.0@ == "Austria"@,
        d[p] == 0x02 ==> v.0@ == "Albania"@,
        d[p] == 0x03 ==> v.0@ == "Andorra"@,
        d[p] == 0x04 ==> v.0@ == "Armenia"@,
        d[p] == 0x05 ==> v.0@ == "Azerbaijan"@,
        d[p] == 0x06 ==> v.0@ == "Belgium"@,
        d[p] == 0x07 ==> v.0@ == "Bulgaria"@,
        d[p] == 0x08 ==> v.0@ == "Bosnia Herzegovina"@,
        d[p] == 0x09 ==> v.0@ == "Belarus"@,
        d[p] == 0x0A ==> v.0@ == "Switzerland"@,
        d[p] == 0x0B ==> v.0@ == "Cyprus"@,
        d[p] == 0x0C ==> v.0@ == "Czech Republic"@,
        d[p] == 0x0D ==> v.0@ == "Germany"@,
        d[p] == 0x0E ==> v.0@ == "Denmark"@,
        d[p] == 0x0F ==> v.0@ == "Spain"@,
        d[p] == 0x10 ==> v.0@ == "Estonia"@,
        d[p] == 0x11 ==> v.0@ == "France"@,
        d[p] == 0x12 ==> v.0@ == "Finland"@,
        d[p] == 0x13 ==> v.0@ == "Liechtenstein"@,
        d[p] == 0x14 ==> v.0@ == "Faroe Islands"@,
        d[p] == 0x15 ==> v.0@ == "United Kingdom"@,
        d[p] == 0x16 ==> v.0@ == "Georgia"@,
        d[p] == 0x17 ==> v.0@ == "Greece"@,
        d[p] == 0x18 ==> v.0@ == "Hungary"@,
        d[p] == 0x19 ==> v.0@ == "Croatia"@,
        d[p] == 0x1A ==> v.0@ == "Italy"@,
        d[p] == 0x1B ==> v.0@ == "Ireland"@,
        d[p] == 0x1C ==> v.0@ == "Iceland"@,
        d[p] == 0x1D ==> v.0@ == "Kazakhstan"@,
        d[p] == 0x1E ==> v.0@ == "Luxembourg"@,
        d[p] == 0x1F ==> v.0@ == "Lithuania"@,
        d[p] == 0x20 ==> v.0@ == "Latvia"@,
        d[p] == 0x21 ==> v.0@ == "Malta"@,
        d[p] == 0x22 ==> v.0@ == "Monaco"@,
        d[p] == 0x23 ==> v.0@ == "Moldova"@,
        d[p] == 0x24 ==> v.0@ == "North Macedonia"@,
        d[p] == 0x25 ==> v.0@ == "Norway"@,
        d[p] == 0x26 ==> v.0@ == "Netherlands"@,
        d[p] == 0x27 ==> v.0@ == "Portugal"@,
        d[p] == 0x28 ==> v.0@ == "Poland"@,
        d[p] == 0x29 ==> v.0@ == "Romania"@,
        d[p] == 0x2A ==> v.0@ == "San Marino"@,
        d[p] == 0x2B ==> v.0@ == "Russia"@,
        d[p] == 0x2C ==> v.0@ == "Sweden"@,
        d[p] == 0x2D ==> v.0@ == "Slovakia"@,
        d[p] == 0x2E ==> v.0@ == "Slovenia"@,
        d[p] == 0x2F ==> v.0@ == "Turkmenistan"@,
        d[p] == 0x30 ==> v.0@ == "Türkiye"@,
        d[p] == 0x31 ==> v.0@ == "Ukraine"@,
        d[p] == 0x32 ==> v.0@ == "Vatican City"@,
        d[p] == 0x34 ==> v.0@ == "Montenegro"@,
        d[p] == 0x35 ==> v.0@ == "Serbia"@,
        d[p] == 0x36 ==> v.0@ == "Uzbekistan"@,
        d[p] == 0x37 ==> v.0@ == "Tajikistan"@,
        d[p] == 0x38 ==> v.0@ == "Kyrgyz Republic"@,
        d[p] == 0xFD ==> v.0@ == "European Community"@,
        d[p] == 0xFE ==> v.0@ == "Rest of Europe"@,
        d[p] == 0xFF ==> v.0@ == "Rest of the World"@,
        !(d[p] == 0x00 || d[p] == 0x01 || d[p] == 0x02 || d[p] == 0x03 || d[p] == 0x04 || d[p] == 0x05 || d[p] == 0x06 || d[p] == 0x07 || d[p] == 0x08 || d[p] == 0x09 || d[p] == 0x0A || d[p] == 0x0B || d[p] == 0x0C || d[p] == 0x0D || d[p] == 0x0E || d[p] == 0x0F || d[p] == 0x10 || d[p] == 0x11 || d[p] == 0x12 || d[p] == 0x13 || d[p] == 0x14 || d[p] == 0x15 || d[p] == 0x16 || d[p] == 0x17 || d[p] == 0x18 || d[p] == 0x19 || d[p] == 0x1A || d[p] == 0x1B || d[p] == 0x1C || d[p] == 0x1D || d[p] == 0x1E || d[p] == 0x1F || d[p] == 0x20 || d[p] == 0x21 || d[p] == 0x22 || d[p] == 0x23 || d[p] == 0x24 || d[p] == 0x25 || d[p] == 0x26 || d[p] == 0x27 || d[p] == 0x28 || d[p] == 0x29 || d[p] == 0x2A || d[p] == 0x2B || d[p] == 0x2C || d[p] == 0x2D || d[p] == 0x2E || d[p] == 0x2F || d[p] == 0x30 || d[p] == 0x31 || d[p] == 0x32 || d[p] == 0x34 || d[p] == 0x35 || d[p] == 0x36 || d[p] == 0x37 || d[p] == 0x38 || d[p] == 0xFD || d[p] == 0xFE || d[p] == 0xFF) ==> v.0@ == "Reserved for Future Use"@,
{
}

} // verus!
