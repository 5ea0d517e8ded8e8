//! Generation 1 data types (Annex IB).
use crate::cursor::{
    be16, bytes_end, bytes_ok, optional_as, parse_optional, Cursor, Parse, ParseDyn, ParseError,
};
use crate::dt::external::{ManufacturerCode, NationNumeric};
use crate::dt::{
    Address, CardApprovalNumber, CardNumber, CardSlotNumber, CardSlotsStatus,
    EmbedderIcAssemblerId, EventFaultRecordPurpose, HolderName, IA5String, KConstantOfRecordingEquipment,
    LTyreCircumference, ManualInputFlag, MonthYear, Name, OdometerShort, OverspeedNumber,
    SensorPairingDate, SimilarEventsNumber, Speed, SpeedAuthorised, SpeedAverage, SpeedMax, TimeReal,
    TyreSize, VehicleIdentificationNumber, VehicleRegistrationIdentification, VuDataBlockCounter,
    VuDetailedSpeedBlock, VuDownloadablePeriod, VuManufacturerAddress, VuManufacturerName,
    VuManufacturingDate, VuPartNumber, VuSoftwareIdentification, WVehicleCharacteristicConstant,
    ActivityChangeInfo,
};
use crate::repeat::{
    attempt_pos, attempt_positions, counted_end, counted_err, group_start, groups_as, kept_positions,
    leading_successes, nonempty_groups, parse_counted, parse_grouped, parse_kept, values_at,
};
use crate::sort::{sort_by_time, sorted_values_at, Timed};
use vstd::prelude::*;

verus! {

/// EquipmentType (appendix 2.67): the type of a card or of equipment.
#[derive(Debug, Clone, Copy, PartialEq, Eq, Structural)]
pub enum EquipmentType {
    Reserved,
    DriverCard,
    WorkshopCard,
    ControlCard,
    CompanyCard,
    ManufacturingCard,
    VehicleUnit,
    MotionSensor,
    RFU,
}

impl EquipmentType {
    /// The value that the byte `b` encodes, if any.
    pub open spec fn from_byte(b: u8) -> Option<EquipmentType> {
        if b == 0x00 {
            Some(EquipmentType::Reserved)
        } else if b == 0x01 {
            Some(EquipmentType::DriverCard)
        } else if b == 0x02 {
            Some(EquipmentType::WorkshopCard)
        } else if b == 0x03 {
            Some(EquipmentType::ControlCard)
        } else if b == 0x04 {
            Some(EquipmentType::CompanyCard)
        } else if b == 0x05 {
            Some(EquipmentType::ManufacturingCard)
        } else if b == 0x06 {
            Some(EquipmentType::VehicleUnit)
        } else if b == 0x07 {
            Some(EquipmentType::MotionSensor)
        } else {
            Some(EquipmentType::RFU)
        }
    }

    /// Decodes one byte.
    pub fn decode(b: u8) -> (r: Option<EquipmentType>)
        ensures
            r == EquipmentType::from_byte(b),
    {
        if b == 0x00 {
            Some(EquipmentType::Reserved)
        } else if b == 0x01 {
            Some(EquipmentType::DriverCard)
        } else if b == 0x02 {
            Some(EquipmentType::WorkshopCard)
        } else if b == 0x03 {
            Some(EquipmentType::ControlCard)
        } else if b == 0x04 {
            Some(EquipmentType::CompanyCard)
        } else if b == 0x05 {
            Some(EquipmentType::ManufacturingCard)
        } else if b == 0x06 {
            Some(EquipmentType::VehicleUnit)
        } else if b == 0x07 {
            Some(EquipmentType::MotionSensor)
        } else {
            Some(EquipmentType::RFU)
        }
    }
}

impl EquipmentType {
    /// Reads a `EquipmentType` at the reader's position.
    pub fn parse(cursor: &mut Cursor) -> (res: Result<EquipmentType, ParseError>)
        ensures
            final(cursor).data() == old(cursor).data(),
            old(cursor).pos() <= final(cursor).pos(),
            final(cursor).pos() == EquipmentType::parse_end(old(cursor).data(), old(cursor).pos()),
            res is Ok <==> EquipmentType::parse_ok(old(cursor).data(), old(cursor).pos()),
            res matches Ok(v) ==> EquipmentType::parsed_as(old(cursor).data(), old(cursor).pos(), v),
            res matches Err(e) ==> e == EquipmentType::parse_err(old(cursor).data(), old(cursor).pos()),
    {
        let b = cursor.read_u8()?;
        match EquipmentType::decode(b) {
            Some(v) => Ok(v),
            None => Err(ParseError::InvalidValue),
        }
    }
}

impl Parse for EquipmentType {
    open spec fn parse_ok(d: Seq<u8>, p: int) -> bool {
        bytes_ok(d, p, 1) && EquipmentType::from_byte(d[p]) is Some
    }

    open spec fn parse_end(d: Seq<u8>, p: int) -> int {
        bytes_end(d, p, 1)
    }

    open spec fn parse_err(d: Seq<u8>, p: int) -> ParseError {
        if !bytes_ok(d, p, 1) {
            ParseError::UnexpectedEnd
        } else {
            ParseError::InvalidValue
        }
    }

    open spec fn parsed_as(d: Seq<u8>, p: int, v: EquipmentType) -> bool {
        EquipmentType::from_byte(d[p]) == Some(v)
    }

    fn parse(cursor: &mut Cursor) -> (res: Result<EquipmentType, ParseError>) {
        EquipmentType::parse(cursor)
    }
}

/// ExtendedSerialNumber (appendix 2.72).
#[derive(Debug)]
pub struct ExtendedSerialNumber {
    pub serial_number: u32,
    pub month_year: MonthYear,
    pub type_: u8,
    pub manufacturer_code: ManufacturerCode,
}

impl ExtendedSerialNumber {
    /// Reads a `ExtendedSerialNumber` at the reader's position.
    pub fn parse(cursor: &mut Cursor) -> (res: Result<ExtendedSerialNumber, ParseError>)
        ensures
            final(cursor).data() == old(cursor).data(),
            old(cursor).pos() <= final(cursor).pos(),
            final(cursor).pos() == ExtendedSerialNumber::parse_end(old(cursor).data(), old(cursor).pos()),
            res is Ok <==> ExtendedSerialNumber::parse_ok(old(cursor).data(), old(cursor).pos()),
            res matches Ok(v) ==> ExtendedSerialNumber::parsed_as(old(cursor).data(), old(cursor).pos(), v),
            res matches Err(e) ==> e == ExtendedSerialNumber::parse_err(old(cursor).data(), old(cursor).pos()),
    {
        let serial_number = u32::parse(cursor)?;
        let month_year = MonthYear::parse(cursor)?;
        let type_ = u8::parse(cursor)?;
        let manufacturer_code = ManufacturerCode::parse(cursor)?;
        Ok(ExtendedSerialNumber { serial_number, month_year, type_, manufacturer_code })
    }
}

impl Parse for ExtendedSerialNumber {
    open spec fn parse_ok(d: Seq<u8>, p: int) -> bool {
        let p1 = u32::parse_end(d, p);
        let p2 = MonthYear::parse_end(d, p1);
        let p3 = u8::parse_end(d, p2);
        u32::parse_ok(d, p)
            && MonthYear::parse_ok(d, p1)
            && u8::parse_ok(d, p2)
            && ManufacturerCode::parse_ok(d, p3)
    }

    open spec fn parse_end(d: Seq<u8>, p: int) -> int {
        let p1 = u32::parse_end(d, p);
        let p2 = MonthYear::parse_end(d, p1);
        let p3 = u8::parse_end(d, p2);
        let p4 = ManufacturerCode::parse_end(d, p3);
        if !u32::parse_ok(d, p) {
            p1
        } else if !MonthYear::parse_ok(d, p1) {
            p2
        } else if !u8::parse_ok(d, p2) {
            p3
        } else if !ManufacturerCode::parse_ok(d, p3) {
            p4
        } else {
            p4
        }
    }

    open spec fn parsed_as(d: Seq<u8>, p: int, v: ExtendedSerialNumber) -> bool {
        let p1 = u32::parse_end(d, p);
        let p2 = MonthYear::parse_end(d, p1);
        let p3 = u8::parse_end(d, p2);
        u32::parsed_as(d, p, v.serial_number)
            && MonthYear::parsed_as(d, p1, v.month_year)
            && u8::parsed_as(d, p2, v.type_)
            && ManufacturerCode::parsed_as(d, p3, v.manufacturer_code)
    }

    open spec fn parse_err(d: Seq<u8>, p: int) -> ParseError {
        let p1 = u32::parse_end(d, p);
        let p2 = MonthYear::parse_end(d, p1);
        let p3 = u8::parse_end(d, p2);
        if !u32::parse_ok(d, p) {
            u32::parse_err(d, p)
        } else if !MonthYear::parse_ok(d, p1) {
            MonthYear::parse_err(d, p1)
        } else if !u8::parse_ok(d, p2) {
            u8::parse_err(d, p2)
        } else if !ManufacturerCode::parse_ok(d, p3) {
            ManufacturerCode::parse_err(d, p3)
        } else {
            ParseError::InvalidValue
        }
    }

    fn parse(cursor: &mut Cursor) -> (res: Result<ExtendedSerialNumber, ParseError>) {
        ExtendedSerialNumber::parse(cursor)
    }
}

/// The Card_Icc_Identification file (appendix 2.23).
#[derive(Debug)]
pub struct CardIccIdentification {
    pub clock_stop: u8,
    pub card_extended_serial_number: ExtendedSerialNumber,
    pub card_approval_number: CardApprovalNumber,
    pub card_personaliser_id: ManufacturerCode,
    pub embedder_ic_assembler_id: EmbedderIcAssemblerId,
    pub ic_identifier: Vec<u8>,
}

impl CardIccIdentification {
    /// Reads a `CardIccIdentification` at the reader's position.
    pub fn parse(cursor: &mut Cursor) -> (res: Result<CardIccIdentification, ParseError>)
        ensures
            final(cursor).data() == old(cursor).data(),
            old(cursor).pos() <= final(cursor).pos(),
            final(cursor).pos() == CardIccIdentification::parse_end(old(cursor).data(), old(cursor).pos()),
            res is Ok <==> CardIccIdentification::parse_ok(old(cursor).data(), old(cursor).pos()),
            res matches Ok(v) ==> CardIccIdentification::parsed_as(old(cursor).data(), old(cursor).pos(), v),
            res matches Err(e) ==> e == CardIccIdentification::parse_err(old(cursor).data(), old(cursor).pos()),
    {
        let clock_stop = u8::parse(cursor)?;
        let card_extended_serial_number = ExtendedSerialNumber::parse(cursor)?;
        let card_approval_number = CardApprovalNumber::parse(cursor)?;
        let card_personaliser_id = ManufacturerCode::parse(cursor)?;
        let embedder_ic_assembler_id = EmbedderIcAssemblerId::parse(cursor)?;
        let ic_identifier = cursor.read_bytes(2)?;
        Ok(CardIccIdentification { clock_stop, card_extended_serial_number, card_approval_number, card_personaliser_id, embedder_ic_assembler_id, ic_identifier })
    }
}

impl Parse for CardIccIdentification {
    open spec fn parse_ok(d: Seq<u8>, p: int) -> bool {
        let p1 = u8::parse_end(d, p);
        let p2 = ExtendedSerialNumber::parse_end(d, p1);
        let p3 = CardApprovalNumber::parse_end(d, p2);
        let p4 = ManufacturerCode::parse_end(d, p3);
        let p5 = EmbedderIcAssemblerId::parse_end(d, p4);
        u8::parse_ok(d, p)
            && ExtendedSerialNumber::parse_ok(d, p1)
            && CardApprovalNumber::parse_ok(d, p2)
            && ManufacturerCode::parse_ok(d, p3)
            && EmbedderIcAssemblerId::parse_ok(d, p4)
            && bytes_ok(d, p5, 2)
    }

    open spec fn parse_end(d: Seq<u8>, p: int) -> int {
        let p1 = u8::parse_end(d, p);
        let p2 = ExtendedSerialNumber::parse_end(d, p1);
        let p3 = CardApprovalNumber::parse_end(d, p2);
        let p4 = ManufacturerCode::parse_end(d, p3);
        let p5 = EmbedderIcAssemblerId::parse_end(d, p4);
        let p6 = bytes_end(d, p5, 2);
        if !u8::parse_ok(d, p) {
            p1
        } else if !ExtendedSerialNumber::parse_ok(d, p1) {
            p2
        } else if !CardApprovalNumber::parse_ok(d, p2) {
            p3
        } else if !ManufacturerCode::parse_ok(d, p3) {
            p4
        } else if !EmbedderIcAssemblerId::parse_ok(d, p4) {
            p5
        } else if !bytes_ok(d, p5, 2) {
            p6
        } else {
            p6
        }
    }

    open spec fn parsed_as(d: Seq<u8>, p: int, v: CardIccIdentification) -> bool {
        let p1 = u8::parse_end(d, p);
        let p2 = ExtendedSerialNumber::parse_end(d, p1);
        let p3 = CardApprovalNumber::parse_end(d, p2);
        let p4 = ManufacturerCode::parse_end(d, p3);
        let p5 = EmbedderIcAssemblerId::parse_end(d, p4);
        u8::parsed_as(d, p, v.clock_stop)
            && ExtendedSerialNumber::parsed_as(d, p1, v.card_extended_serial_number)
            && CardApprovalNumber::parsed_as(d, p2, v.card_approval_number)
            && ManufacturerCode::parsed_as(d, p3, v.card_personaliser_id)
            && EmbedderIcAssemblerId::parsed_as(d, p4, v.embedder_ic_assembler_id)
            && v.ic_identifier@ == d.subrange(p5, p5 + 2)
    }

    open spec fn parse_err(d: Seq<u8>, p: int) -> ParseError {
        let p1 = u8::parse_end(d, p);
        let p2 = ExtendedSerialNumber::parse_end(d, p1);
        let p3 = CardApprovalNumber::parse_end(d, p2);
        let p4 = ManufacturerCode::parse_end(d, p3);
        let p5 = EmbedderIcAssemblerId::parse_end(d, p4);
        if !u8::parse_ok(d, p) {
            u8::parse_err(d, p)
        } else if !ExtendedSerialNumber::parse_ok(d, p1) {
            ExtendedSerialNumber::parse_err(d, p1)
        } else if !CardApprovalNumber::parse_ok(d, p2) {
            CardApprovalNumber::parse_err(d, p2)
        } else if !ManufacturerCode::parse_ok(d, p3) {
            ManufacturerCode::parse_err(d, p3)
        } else if !EmbedderIcAssemblerId::parse_ok(d, p4) {
            EmbedderIcAssemblerId::parse_err(d, p4)
        } else if !bytes_ok(d, p5, 2) {
            ParseError::UnexpectedEnd
        } else {
            ParseError::InvalidValue
        }
    }

    fn parse(cursor: &mut Cursor) -> (res: Result<CardIccIdentification, ParseError>) {
        CardIccIdentification::parse(cursor)
    }
}

/// CalibrationPurpose (appendix 2.8).
#[derive(Debug, Clone, Copy, PartialEq, Eq, Structural)]
pub enum CalibrationPurpose {
    Reserved,
    Activation,
    FirstInstallation,
    Installation,
    PeriodicInspection,
}

impl CalibrationPurpose {
    /// The value that the byte `b` encodes, if any.
    pub open spec fn from_byte(b: u8) -> Option<CalibrationPurpose> {
        if b == 0x00 {
            Some(CalibrationPurpose::Reserved)
        } else if b == 0x01 {
            Some(CalibrationPurpose::Activation)
        } else if b == 0x02 {
            Some(CalibrationPurpose::FirstInstallation)
        } else if b == 0x03 {
            Some(CalibrationPurpose::Installation)
        } else if b == 0x04 {
            Some(CalibrationPurpose::PeriodicInspection)
        } else {
            None
        }
    }

    /// Decodes one byte.
    pub fn decode(b: u8) -> (r: Option<CalibrationPurpose>)
        ensures
            r == CalibrationPurpose::from_byte(b),
    {
        if b == 0x00 {
            Some(CalibrationPurpose::Reserved)
        } else if b == 0x01 {
            Some(CalibrationPurpose::Activation)
        } else if b == 0x02 {
            Some(CalibrationPurpose::FirstInstallation)
        } else if b == 0x03 {
            Some(CalibrationPurpose::Installation)
        } else if b == 0x04 {
            Some(CalibrationPurpose::PeriodicInspection)
        } else {
            None
        }
    }
}

impl CalibrationPurpose {
    /// Reads a `CalibrationPurpose` at the reader's position.
    pub fn parse(cursor: &mut Cursor) -> (res: Result<CalibrationPurpose, ParseError>)
        ensures
            final(cursor).data() == old(cursor).data(),
            old(cursor).pos() <= final(cursor).pos(),
            final(cursor).pos() == CalibrationPurpose::parse_end(old(cursor).data(), old(cursor).pos()),
            res is Ok <==> CalibrationPurpose::parse_ok(old(cursor).data(), old(cursor).pos()),
            res matches Ok(v) ==> CalibrationPurpose::parsed_as(old(cursor).data(), old(cursor).pos(), v),
            res matches Err(e) ==> e == CalibrationPurpose::parse_err(old(cursor).data(), old(cursor).pos()),
    {
        let b = cursor.read_u8()?;
        match CalibrationPurpose::decode(b) {
            Some(v) => Ok(v),
            None => Err(ParseError::InvalidValue),
        }
    }
}

impl Parse for CalibrationPurpose {
    open spec fn parse_ok(d: Seq<u8>, p: int) -> bool {
        bytes_ok(d, p, 1) && CalibrationPurpose::from_byte(d[p]) is Some
    }

    open spec fn parse_end(d: Seq<u8>, p: int) -> int {
        bytes_end(d, p, 1)
    }

    open spec fn parse_err(d: Seq<u8>, p: int) -> ParseError {
        if !bytes_ok(d, p, 1) {
            ParseError::UnexpectedEnd
        } else {
            ParseError::InvalidValue
        }
    }

    open spec fn parsed_as(d: Seq<u8>, p: int, v: CalibrationPurpose) -> bool {
        CalibrationPurpose::from_byte(d[p]) == Some(v)
    }

    fn parse(cursor: &mut Cursor) -> (res: Result<CalibrationPurpose, ParseError>) {
        CalibrationPurpose::parse(cursor)
    }
}

/// SensorSerialNumber (appendix 2.148).
pub type SensorSerialNumber = ExtendedSerialNumber;

/// VuSerialNumber (appendix 2.223).
pub type VuSerialNumber = ExtendedSerialNumber;

/// SensorApprovalNumber (appendix 2.145): eight characters.
#[derive(Debug)]
pub struct SensorApprovalNumber(pub IA5String);

impl SensorApprovalNumber {
    /// Reads a `SensorApprovalNumber` at the reader's position.
    pub fn parse(cursor: &mut Cursor) -> (res: Result<SensorApprovalNumber, ParseError>)
        ensures
            final(cursor).data() == old(cursor).data(),
            old(cursor).pos() <= final(cursor).pos(),
            final(cursor).pos() == SensorApprovalNumber::parse_end(old(cursor).data(), old(cursor).pos()),
            res is Ok <==> SensorApprovalNumber::parse_ok(old(cursor).data(), old(cursor).pos()),
            res matches Ok(v) ==> SensorApprovalNumber::parsed_as(old(cursor).data(), old(cursor).pos(), v),
            res matches Err(e) ==> e == SensorApprovalNumber::parse_err(old(cursor).data(), old(cursor).pos()),
    {
        let value = IA5String::parse_dyn_size(cursor, 8)?;
        Ok(SensorApprovalNumber(value))
    }
}

impl Parse for SensorApprovalNumber {
    open spec fn parse_ok(d: Seq<u8>, p: int) -> bool {
        IA5String::dyn_ok(d, p, 8)
    }

    open spec fn parse_end(d: Seq<u8>, p: int) -> int {
        let p1 = IA5String::dyn_end(d, p, 8);
        if !IA5String::dyn_ok(d, p, 8) {
            p1
        } else {
            p1
        }
    }

    open spec fn parsed_as(d: Seq<u8>, p: int, v: SensorApprovalNumber) -> bool {
        IA5String::dyn_as(d, p, 8, v.0)
    }

    open spec fn parse_err(d: Seq<u8>, p: int) -> ParseError {
        if !IA5String::dyn_ok(d, p, 8) {
            IA5String::dyn_err(d, p, 8)
        } else {
            ParseError::InvalidValue
        }
    }

    fn parse(cursor: &mut Cursor) -> (res: Result<SensorApprovalNumber, ParseError>) {
        SensorApprovalNumber::parse(cursor)
    }
}

/// VuApprovalNumber (appendix 2.172): eight characters.
#[derive(Debug)]
pub struct VuApprovalNumber(pub IA5String);

impl VuApprovalNumber {
    /// Reads a `VuApprovalNumber` at the reader's position.
    pub fn parse(cursor: &mut Cursor) -> (res: Result<VuApprovalNumber, ParseError>)
        ensures
            final(cursor).data() == old(cursor).data(),
            old(cursor).pos() <= final(cursor).pos(),
            final(cursor).pos() == VuApprovalNumber::parse_end(old(cursor).data(), old(cursor).pos()),
            res is Ok <==> VuApprovalNumber::parse_ok(old(cursor).data(), old(cursor).pos()),
            res matches Ok(v) ==> VuApprovalNumber::parsed_as(old(cursor).data(), old(cursor).pos(), v),
            res matches Err(e) ==> e == VuApprovalNumber::parse_err(old(cursor).data(), old(cursor).pos()),
    {
        let value = IA5String::parse_dyn_size(cursor, 8)?;
        Ok(VuApprovalNumber(value))
    }
}

impl Parse for VuApprovalNumber {
    open spec fn parse_ok(d: Seq<u8>, p: int) -> bool {
        IA5String::dyn_ok(d, p, 8)
    }

    open spec fn parse_end(d: Seq<u8>, p: int) -> int {
        let p1 = IA5String::dyn_end(d, p, 8);
        if !IA5String::dyn_ok(d, p, 8) {
            p1
        } else {
            p1
        }
    }

    open spec fn parsed_as(d: Seq<u8>, p: int, v: VuApprovalNumber) -> bool {
        IA5String::dyn_as(d, p, 8, v.0)
    }

    open spec fn parse_err(d: Seq<u8>, p: int) -> ParseError {
        if !IA5String::dyn_ok(d, p, 8) {
            IA5String::dyn_err(d, p, 8)
        } else {
            ParseError::InvalidValue
        }
    }

    fn parse(cursor: &mut Cursor) -> (res: Result<VuApprovalNumber, ParseError>) {
        VuApprovalNumber::parse(cursor)
    }
}

/// EventFaultType (appendix 2.70) as generation 1 defines it.
#[derive(Debug, Clone, Copy, PartialEq, Eq, Structural)]
pub enum EventFaultType {
    NoFurtherDetails,
    InsertionOfNonValidCard,
    CardConflict,
    TimeOverlap,
    DrivingWithoutAppropriateCard,
    CardInsertionWhileDriving,
    LastCardSessionNotCorrectlyClosed,
    OverSpeeding,
    PowerSupplyInterruption,
    MotionDataError,
    VehicleMotionConflict,
    RFU,
    VUSecurityBreachAttemptNoFurtherDetails,
    MotionSensorAuthenticationFailure,
    TachographCardAuthenticationFailure,
    UnauthorizedChangeOfMotionSensor,
    CardDataInputIntegrityError,
    StoredUserDataIntegrityError,
    InternalDataTransferError,
    UnauthorizedCaseOpening,
    HardwareSabotage,
    SensorSecurityBreachAttemptNoFurtherDetails,
    SensorAuthenticationFailure,
    SensorStoredDataIntegrityError,
    SensorInternalDataTransferError,
    SensorUnauthorizedCaseOpening,
    SensorHardwareSabotage,
    ControlDeviceFaultNoFurtherDetails,
    VUInternalFault,
    PrinterFault,
    DisplayFault,
    DownloadingFault,
    SensorFault,
    ManufacturerSpecific,
}

impl EventFaultType {
    /// The value that the byte `b` encodes, if any.
    pub open spec fn from_byte(b: u8) -> Option<EventFaultType> {
        if b == 0x00 {
            Some(EventFaultType::NoFurtherDetails)
        } else if b == 0x01 {
            Some(EventFaultType::InsertionOfNonValidCard)
        } else if b == 0x02 {
            Some(EventFaultType::CardConflict)
        } else if b == 0x03 {
            Some(EventFaultType::TimeOverlap)
        } else if b == 0x04 {
            Some(EventFaultType::DrivingWithoutAppropriateCard)
        } else if b == 0x05 {
            Some(EventFaultType::CardInsertionWhileDriving)
        } else if b == 0x06 {
            Some(EventFaultType::LastCardSessionNotCorrectlyClosed)
        } else if b == 0x07 {
            Some(EventFaultType::OverSpeeding)
        } else if b == 0x08 {
            Some(EventFaultType::PowerSupplyInterruption)
        } else if b == 0x09 {
            Some(EventFaultType::MotionDataError)
        } else if b == 0x0A {
            Some(EventFaultType::VehicleMotionConflict)
        } else if 0x0B <= b && b <= 0x0F {
            Some(EventFaultType::RFU)
        } else if b == 0x10 {
            Some(EventFaultType::VUSecurityBreachAttemptNoFurtherDetails)
        } else if b == 0x11 {
            Some(EventFaultType::MotionSensorAuthenticationFailure)
        } else if b == 0x12 {
            Some(EventFaultType::TachographCardAuthenticationFailure)
        } else if b == 0x13 {
            Some(EventFaultType::UnauthorizedChangeOfMotionSensor)
        } else if b == 0x14 {
            Some(EventFaultType::CardDataInputIntegrityError)
        } else if b == 0x15 {
            Some(EventFaultType::StoredUserDataIntegrityError)
        } else if b == 0x16 {
            Some(EventFaultType::InternalDataTransferError)
        } else if b == 0x17 {
            Some(EventFaultType::UnauthorizedCaseOpening)
        } else if b == 0x18 {
            Some(EventFaultType::HardwareSabotage)
        } else if 0x19 <= b && b <= 0x1F {
            Some(EventFaultType::RFU)
        } else if b == 0x20 {
            Some(EventFaultType::SensorSecurityBreachAttemptNoFurtherDetails)
        } else if b == 0x21 {
            Some(EventFaultType::SensorAuthenticationFailure)
        } else if b == 0x22 {
            Some(EventFaultType::SensorStoredDataIntegrityError)
        } else if b == 0x23 {
            Some(EventFaultType::SensorInternalDataTransferError)
        } else if b == 0x24 {
            Some(EventFaultType::SensorUnauthorizedCaseOpening)
        } else if b == 0x25 {
            Some(EventFaultType::SensorHardwareSabotage)
        } else if 0x26 <= b && b <= 0x2F {
            Some(EventFaultType::RFU)
        } else if b == 0x30 {
            Some(EventFaultType::ControlDeviceFaultNoFurtherDetails)
        } else if b == 0x31 {
            Some(EventFaultType::VUInternalFault)
        } else if b == 0x32 {
            Some(EventFaultType::PrinterFault)
        } else if b == 0x33 {
            Some(EventFaultType::DisplayFault)
        } else if b == 0x34 {
            Some(EventFaultType::DownloadingFault)
        } else if b == 0x35 {
            Some(EventFaultType::SensorFault)
        } else if 0x36 <= b && b <= 0x3F {
            Some(EventFaultType::RFU)
        } else if b == 0x40 {
            Some(EventFaultType::NoFurtherDetails)
        } else if 0x41 <= b && b <= 0x4F {
            Some(EventFaultType::RFU)
        } else if 0x50 <= b && b <= 0x7F {
            Some(EventFaultType::RFU)
        } else {
            Some(EventFaultType::ManufacturerSpecific)
        }
    }

    /// Decodes one byte.
    pub fn decode(b: u8) -> (r: Option<EventFaultType>)
        ensures
            r == EventFaultType::from_byte(b),
    {
        if b == 0x00 {
            Some(EventFaultType::NoFurtherDetails)
        } else if b == 0x01 {
            Some(EventFaultType::InsertionOfNonValidCard)
        } else if b == 0x02 {
            Some(EventFaultType::CardConflict)
        } else if b == 0x03 {
            Some(EventFaultType::TimeOverlap)
        } else if b == 0x04 {
            Some(EventFaultType::DrivingWithoutAppropriateCard)
        } else if b == 0x05 {
            Some(EventFaultType::CardInsertionWhileDriving)
        } else if b == 0x06 {
            Some(EventFaultType::LastCardSessionNotCorrectlyClosed)
        } else if b == 0x07 {
            Some(EventFaultType::OverSpeeding)
        } else if b == 0x08 {
            Some(EventFaultType::PowerSupplyInterruption)
        } else if b == 0x09 {
            Some(EventFaultType::MotionDataError)
        } else if b == 0x0A {
            Some(EventFaultType::VehicleMotionConflict)
        } else if 0x0B <= b && b <= 0x0F {
            Some(EventFaultType::RFU)
        } else if b == 0x10 {
            Some(EventFaultType::VUSecurityBreachAttemptNoFurtherDetails)
        } else if b == 0x11 {
            Some(EventFaultType::MotionSensorAuthenticationFailure)
        } else if b == 0x12 {
            Some(EventFaultType::TachographCardAuthenticationFailure)
        } else if b == 0x13 {
            Some(EventFaultType::UnauthorizedChangeOfMotionSensor)
        } else if b == 0x14 {
            Some(EventFaultType::CardDataInputIntegrityError)
        } else if b == 0x15 {
            Some(EventFaultType::StoredUserDataIntegrityError)
        } else if b == 0x16 {
            Some(EventFaultType::InternalDataTransferError)
        } else if b == 0x17 {
            Some(EventFaultType::UnauthorizedCaseOpening)
        } else if b == 0x18 {
            Some(EventFaultType::HardwareSabotage)
        } else if 0x19 <= b && b <= 0x1F {
            Some(EventFaultType::RFU)
        } else if b == 0x20 {
            Some(EventFaultType::SensorSecurityBreachAttemptNoFurtherDetails)
        } else if b == 0x21 {
            Some(EventFaultType::SensorAuthenticationFailure)
        } else if b == 0x22 {
            Some(EventFaultType::SensorStoredDataIntegrityError)
        } else if b == 0x23 {
            Some(EventFaultType::SensorInternalDataTransferError)
        } else if b == 0x24 {
            Some(EventFaultType::SensorUnauthorizedCaseOpening)
        } else if b == 0x25 {
            Some(EventFaultType::SensorHardwareSabotage)
        } else if 0x26 <= b && b <= 0x2F {
            Some(EventFaultType::RFU)
        } else if b == 0x30 {
            Some(EventFaultType::ControlDeviceFaultNoFurtherDetails)
        } else if b == 0x31 {
            Some(EventFaultType::VUInternalFault)
        } else if b == 0x32 {
            Some(EventFaultType::PrinterFault)
        } else if b == 0x33 {
            Some(EventFaultType::DisplayFault)
        } else if b == 0x34 {
            Some(EventFaultType::DownloadingFault)
        } else if b == 0x35 {
            Some(EventFaultType::SensorFault)
        } else if 0x36 <= b && b <= 0x3F {
            Some(EventFaultType::RFU)
        } else if b == 0x40 {
            Some(EventFaultType::NoFurtherDetails)
        } else if 0x41 <= b && b <= 0x4F {
            Some(EventFaultType::RFU)
        } else if 0x50 <= b && b <= 0x7F {
            Some(EventFaultType::RFU)
        } else {
            Some(EventFaultType::ManufacturerSpecific)
        }
    }
}

impl EventFaultType {
    /// Reads a `EventFaultType` at the reader's position.
    pub fn parse(cursor: &mut Cursor) -> (res: Result<EventFaultType, ParseError>)
        ensures
            final(cursor).data() == old(cursor).data(),
            old(cursor).pos() <= final(cursor).pos(),
            final(cursor).pos() == EventFaultType::parse_end(old(cursor).data(), old(cursor).pos()),
            res is Ok <==> EventFaultType::parse_ok(old(cursor).data(), old(cursor).pos()),
            res matches Ok(v) ==> EventFaultType::parsed_as(old(cursor).data(), old(cursor).pos(), v),
            res matches Err(e) ==> e == EventFaultType::parse_err(old(cursor).data(), old(cursor).pos()),
    {
        let b = cursor.read_u8()?;
        match EventFaultType::decode(b) {
            Some(v) => Ok(v),
            None => Err(ParseError::InvalidValue),
        }
    }
}

impl Parse for EventFaultType {
    open spec fn parse_ok(d: Seq<u8>, p: int) -> bool {
        bytes_ok(d, p, 1) && EventFaultType::from_byte(d[p]) is Some
    }

    open spec fn parse_end(d: Seq<u8>, p: int) -> int {
        bytes_end(d, p, 1)
    }

    open spec fn parse_err(d: Seq<u8>, p: int) -> ParseError {
        if !bytes_ok(d, p, 1) {
            ParseError::UnexpectedEnd
        } else {
            ParseError::InvalidValue
        }
    }

    open spec fn parsed_as(d: Seq<u8>, p: int, v: EventFaultType) -> bool {
        EventFaultType::from_byte(d[p]) == Some(v)
    }

    fn parse(cursor: &mut Cursor) -> (res: Result<EventFaultType, ParseError>) {
        EventFaultType::parse(cursor)
    }
}

/// SpecificConditionType (appendix 2.154) as generation 1 defines it.
#[derive(Debug, Clone, Copy, PartialEq, Eq, Structural)]
pub enum SpecificConditionType {
    RFU,
    OutOfScopeBegin,
    OutOfScopeEnd,
    FerryTrainCrossingBegin,
}

impl SpecificConditionType {
    /// The value that the byte `b` encodes, if any.
    pub open spec fn from_byte(b: u8) -> Option<SpecificConditionType> {
        if b == 0x00 {
            Some(SpecificConditionType::RFU)
        } else if b == 0x01 {
            Some(SpecificConditionType::OutOfScopeBegin)
        } else if b == 0x02 {
            Some(SpecificConditionType::OutOfScopeEnd)
        } else if b == 0x03 {
            Some(SpecificConditionType::FerryTrainCrossingBegin)
        } else {
            Some(SpecificConditionType::RFU)
        }
    }

    /// Decodes one byte.
    pub fn decode(b: u8) -> (r: Option<SpecificConditionType>)
        ensures
            r == SpecificConditionType::from_byte(b),
    {
        if b == 0x00 {
            Some(SpecificConditionType::RFU)
        } else if b == 0x01 {
            Some(SpecificConditionType::OutOfScopeBegin)
        } else if b == 0x02 {
            Some(SpecificConditionType::OutOfScopeEnd)
        } else if b == 0x03 {
            Some(SpecificConditionType::FerryTrainCrossingBegin)
        } else {
            Some(SpecificConditionType::RFU)
        }
    }
}

impl SpecificConditionType {
    /// Reads a `SpecificConditionType` at the reader's position.
    pub fn parse(cursor: &mut Cursor) -> (res: Result<SpecificConditionType, ParseError>)
        ensures
            final(cursor).data() == old(cursor).data(),
            old(cursor).pos() <= final(cursor).pos(),
            final(cursor).pos() == SpecificConditionType::parse_end(old(cursor).data(), old(cursor).pos()),
            res is Ok <==> SpecificConditionType::parse_ok(old(cursor).data(), old(cursor).pos()),
            res matches Ok(v) ==> SpecificConditionType::parsed_as(old(cursor).data(), old(cursor).pos(), v),
            res matches Err(e) ==> e == SpecificConditionType::parse_err(old(cursor).data(), old(cursor).pos()),
    {
        let b = cursor.read_u8()?;
        match SpecificConditionType::decode(b) {
            Some(v) => Ok(v),
            None => Err(ParseError::InvalidValue),
        }
    }
}

impl Parse for SpecificConditionType {
    open spec fn parse_ok(d: Seq<u8>, p: int) -> bool {
        bytes_ok(d, p, 1) && SpecificConditionType::from_byte(d[p]) is Some
    }

    open spec fn parse_end(d: Seq<u8>, p: int) -> int {
        bytes_end(d, p, 1)
    }

    open spec fn parse_err(d: Seq<u8>, p: int) -> ParseError {
        if !bytes_ok(d, p, 1) {
            ParseError::UnexpectedEnd
        } else {
            ParseError::InvalidValue
        }
    }

    open spec fn parsed_as(d: Seq<u8>, p: int, v: SpecificConditionType) -> bool {
        SpecificConditionType::from_byte(d[p]) == Some(v)
    }

    fn parse(cursor: &mut Cursor) -> (res: Result<SpecificConditionType, ParseError>) {
        SpecificConditionType::parse(cursor)
    }
}

/// SpecificConditionRecord (appendix 2.152): five bytes; a record of reserved type is refused.
#[derive(Debug)]
pub struct SpecificConditionRecord {
    pub entry_time: TimeReal,
    pub specific_condition_type: SpecificConditionType,
}

impl SpecificConditionRecord {
    /// The number of bytes of a SpecificConditionRecord.
    pub const SIZE: usize = 5;

    /// The fields can be read from position `p` of `d`.
    pub open spec fn fields_ok(d: Seq<u8>, p: int) -> bool {
        let p1 = TimeReal::parse_end(d, p);
        TimeReal::parse_ok(d, p)
            && SpecificConditionType::parse_ok(d, p1)
            && SpecificConditionType::from_byte(d[p1]) != Some(SpecificConditionType::RFU)
    }

    /// The error of a read of the fields from position `p` of `d` that fails.
    pub open spec fn fields_err(d: Seq<u8>, p: int) -> ParseError {
        let p1 = TimeReal::parse_end(d, p);
        if !TimeReal::parse_ok(d, p) {
            TimeReal::parse_err(d, p)
        } else if !SpecificConditionType::parse_ok(d, p1) {
            SpecificConditionType::parse_err(d, p1)
        } else {
            ParseError::InvalidValue
        }
    }

    /// `v` holds the fields read from position `p` of `d`.
    pub open spec fn fields_as(d: Seq<u8>, p: int, v: SpecificConditionRecord) -> bool {
        let p1 = TimeReal::parse_end(d, p);
        TimeReal::parsed_as(d, p, v.entry_time)
            && SpecificConditionType::parsed_as(d, p1, v.specific_condition_type)
    }
}

impl SpecificConditionRecord {
    /// Reads a `SpecificConditionRecord` at the reader's position.
    pub fn parse(cursor: &mut Cursor) -> (res: Result<SpecificConditionRecord, ParseError>)
        ensures
            final(cursor).data() == old(cursor).data(),
            old(cursor).pos() <= final(cursor).pos(),
            final(cursor).pos() == SpecificConditionRecord::parse_end(old(cursor).data(), old(cursor).pos()),
            res is Ok <==> SpecificConditionRecord::parse_ok(old(cursor).data(), old(cursor).pos()),
            res matches Ok(v) ==> SpecificConditionRecord::parsed_as(old(cursor).data(), old(cursor).pos(), v),
            res matches Err(e) ==> e == SpecificConditionRecord::parse_err(old(cursor).data(), old(cursor).pos()),
    {
        let mut inner = cursor.take_exact(5)?;
        let entry_time = TimeReal::parse(&mut inner)?;
        let specific_condition_type = SpecificConditionType::parse(&mut inner)?;
        if specific_condition_type == SpecificConditionType::RFU {
            return Err(ParseError::InvalidValue);
        }
        Ok(SpecificConditionRecord { entry_time, specific_condition_type })
    }
}

impl Parse for SpecificConditionRecord {
    open spec fn parse_ok(d: Seq<u8>, p: int) -> bool {
        bytes_ok(d, p, 5) && SpecificConditionRecord::fields_ok(d.subrange(p, p + 5), 0)
    }

    open spec fn parse_end(d: Seq<u8>, p: int) -> int {
        bytes_end(d, p, 5)
    }

    open spec fn parsed_as(d: Seq<u8>, p: int, v: SpecificConditionRecord) -> bool {
        SpecificConditionRecord::fields_as(d.subrange(p, p + 5), 0, v)
    }

    open spec fn parse_err(d: Seq<u8>, p: int) -> ParseError {
        if !bytes_ok(d, p, 5) {
            ParseError::UnexpectedEnd
        } else {
            SpecificConditionRecord::fields_err(d.subrange(p, p + 5), 0)
        }
    }

    fn parse(cursor: &mut Cursor) -> (res: Result<SpecificConditionRecord, ParseError>) {
        SpecificConditionRecord::parse(cursor)
    }
}

impl Timed for SpecificConditionRecord {
    open spec fn time_key(&self) -> int {
        self.entry_time.0 as int
    }

    fn time_of(&self) -> (r: u32) {
        self.entry_time.0
    }
}

/// The Specific_Conditions file: the readable records among its five-byte slots, by entry time ascending.
#[derive(Debug)]
pub struct SpecificConditions {
    pub specific_condition_records: Vec<SpecificConditionRecord>,
}

impl SpecificConditions {
    /// Reads a `SpecificConditions` of `size` bytes at the reader's position.
    pub fn parse_dyn_size(cursor: &mut Cursor, size: usize) -> (res: Result<SpecificConditions, ParseError>)
        ensures
            final(cursor).data() == old(cursor).data(),
            old(cursor).pos() <= final(cursor).pos(),
            final(cursor).pos() == SpecificConditions::dyn_end(old(cursor).data(), old(cursor).pos(), size as int),
            res is Ok <==> SpecificConditions::dyn_ok(old(cursor).data(), old(cursor).pos(), size as int),
            res matches Ok(v) ==> SpecificConditions::dyn_as(old(cursor).data(), old(cursor).pos(), size as int, v),
            res matches Err(e) ==> e == SpecificConditions::dyn_err(old(cursor).data(), old(cursor).pos(), size as int),
    {
        let kept = parse_kept::<SpecificConditionRecord>(cursor, size / 5);
        let ghost s0 = kept@;
        let specific_condition_records = sort_by_time(kept, false);
        proof {
            let d = old(cursor).data();
            let p = old(cursor).pos();
            assert(values_at(d, kept_positions::<SpecificConditionRecord>(d, p, (size / 5) as nat), s0));
        }
        Ok(SpecificConditions { specific_condition_records })
    }
}

impl ParseDyn for SpecificConditions {
    open spec fn dyn_ok(d: Seq<u8>, p: int, size: int) -> bool {
        true
    }

    open spec fn dyn_end(d: Seq<u8>, p: int, size: int) -> int {
        attempt_pos::<SpecificConditionRecord>(d, p, (size / 5) as nat)
    }

    open spec fn dyn_err(d: Seq<u8>, p: int, size: int) -> ParseError {
        ParseError::UnexpectedEnd
    }

    open spec fn dyn_as(d: Seq<u8>, p: int, size: int, v: SpecificConditions) -> bool {
        sorted_values_at(d, kept_positions::<SpecificConditionRecord>(d, p, (size / 5) as nat), v.specific_condition_records@, false)
    }

    fn parse_dyn_size(cursor: &mut Cursor, size: usize) -> (res: Result<SpecificConditions, ParseError>) {
        SpecificConditions::parse_dyn_size(cursor, size)
    }
}

/// Certificate (appendix 2.41): 194 bytes.
#[derive(Debug)]
pub struct Certificate(pub Vec<u8>);

impl Certificate {
    /// Reads a `Certificate` at the reader's position.
    pub fn parse(cursor: &mut Cursor) -> (res: Result<Certificate, ParseError>)
        ensures
            final(cursor).data() == old(cursor).data(),
            old(cursor).pos() <= final(cursor).pos(),
            final(cursor).pos() == Certificate::parse_end(old(cursor).data(), old(cursor).pos()),
            res is Ok <==> Certificate::parse_ok(old(cursor).data(), old(cursor).pos()),
            res matches Ok(v) ==> Certificate::parsed_as(old(cursor).data(), old(cursor).pos(), v),
            res matches Err(e) ==> e == Certificate::parse_err(old(cursor).data(), old(cursor).pos()),
    {
        let value = cursor.read_bytes(194)?;
        Ok(Certificate(value))
    }
}

impl Parse for Certificate {
    open spec fn parse_ok(d: Seq<u8>, p: int) -> bool {
        bytes_ok(d, p, 194)
    }

    open spec fn parse_end(d: Seq<u8>, p: int) -> int {
        let p1 = bytes_end(d, p, 194);
        if !bytes_ok(d, p, 194) {
            p1
        } else {
            p1
        }
    }

    open spec fn parsed_as(d: Seq<u8>, p: int, v: Certificate) -> bool {
        v.0@ == d.subrange(p, p + 194)
    }

    open spec fn parse_err(d: Seq<u8>, p: int) -> ParseError {
        if !bytes_ok(d, p, 194) {
            ParseError::UnexpectedEnd
        } else {
            ParseError::InvalidValue
        }
    }

    fn parse(cursor: &mut Cursor) -> (res: Result<Certificate, ParseError>) {
        Certificate::parse(cursor)
    }
}

/// Signature (appendix 2.149): 128 bytes.
#[derive(Debug)]
pub struct Signature(pub Vec<u8>);

impl Signature {
    /// Reads a `Signature` at the reader's position.
    pub fn parse(cursor: &mut Cursor) -> (res: Result<Signature, ParseError>)
        ensures
            final(cursor).data() == old(cursor).data(),
            old(cursor).pos() <= final(cursor).pos(),
            final(cursor).pos() == Signature::parse_end(old(cursor).data(), old(cursor).pos()),
            res is Ok <==> Signature::parse_ok(old(cursor).data(), old(cursor).pos()),
            res matches Ok(v) ==> Signature::parsed_as(old(cursor).data(), old(cursor).pos(), v),
            res matches Err(e) ==> e == Signature::parse_err(old(cursor).data(), old(cursor).pos()),
    {
        let value = cursor.read_bytes(128)?;
        Ok(Signature(value))
    }
}

impl Parse for Signature {
    open spec fn parse_ok(d: Seq<u8>, p: int) -> bool {
        bytes_ok(d, p, 128)
    }

    open spec fn parse_end(d: Seq<u8>, p: int) -> int {
        let p1 = bytes_end(d, p, 128);
        if !bytes_ok(d, p, 128) {
            p1
        } else {
            p1
        }
    }

    open spec fn parsed_as(d: Seq<u8>, p: int, v: Signature) -> bool {
        v.0@ == d.subrange(p, p + 128)
    }

    open spec fn parse_err(d: Seq<u8>, p: int) -> ParseError {
        if !bytes_ok(d, p, 128) {
            ParseError::UnexpectedEnd
        } else {
            ParseError::InvalidValue
        }
    }

    fn parse(cursor: &mut Cursor) -> (res: Result<Signature, ParseError>) {
        Signature::parse(cursor)
    }
}

impl FullCardNumber {
    /// The card number that a card of type `t` has at `pos`: a driver card
    /// number, the number of a workshop, control or company card, or none.
    pub open spec fn card_number_as(t: Option<EquipmentType>, d: Seq<u8>, pos: int, v: CardNumber) -> bool {
        match t {
            Some(EquipmentType::DriverCard) => CardNumber::driver_as(d, pos, v),
            Some(EquipmentType::WorkshopCard) | Some(EquipmentType::ControlCard) | Some(
                EquipmentType::CompanyCard,
            ) => CardNumber::owner_as(d, pos, v),
            _ => v is Unknown,
        }
    }

    fn parse_card_number(card_type: EquipmentType, cursor: &mut Cursor) -> (res: Result<CardNumber, ParseError>)
        ensures
            final(cursor).data() == old(cursor).data(),
            old(cursor).pos() <= final(cursor).pos(),
            final(cursor).pos() == bytes_end(old(cursor).data(), old(cursor).pos(), 16),
            res is Ok <==> bytes_ok(old(cursor).data(), old(cursor).pos(), 16),
            res matches Err(e) ==> e == ParseError::UnexpectedEnd,
            res matches Ok(v) ==> FullCardNumber::card_number_as(
                Some(card_type),
                old(cursor).data(),
                old(cursor).pos(),
                v,
            ),
    {
        match card_type {
            EquipmentType::DriverCard => CardNumber::parse_driver(cursor),
            EquipmentType::WorkshopCard | EquipmentType::ControlCard | EquipmentType::CompanyCard => {
                CardNumber::parse_owner(cursor)
            },
            _ => CardNumber::parse_unknown(cursor),
        }
    }
}

/// FullCardNumber (appendix 2.73): the card type, the issuing nation and the card number; a card of reserved type is refused.
#[derive(Debug)]
pub struct FullCardNumber {
    pub card_type: EquipmentType,
    pub card_issuing_member_state: NationNumeric,
    pub card_number: CardNumber,
}

impl FullCardNumber {
    /// Reads a `FullCardNumber` at the reader's position.
    pub fn parse(cursor: &mut Cursor) -> (res: Result<FullCardNumber, ParseError>)
        ensures
            final(cursor).data() == old(cursor).data(),
            old(cursor).pos() <= final(cursor).pos(),
            final(cursor).pos() == FullCardNumber::parse_end(old(cursor).data(), old(cursor).pos()),
            res is Ok <==> FullCardNumber::parse_ok(old(cursor).data(), old(cursor).pos()),
            res matches Ok(v) ==> FullCardNumber::parsed_as(old(cursor).data(), old(cursor).pos(), v),
            res matches Err(e) ==> e == FullCardNumber::parse_err(old(cursor).data(), old(cursor).pos()),
    {
        let card_type = EquipmentType::parse(cursor)?;
        let card_issuing_member_state = NationNumeric::parse(cursor)?;
        let card_number = FullCardNumber::parse_card_number(card_type, cursor)?;
        if card_type == EquipmentType::RFU {
            return Err(ParseError::InvalidValue);
        }
        Ok(FullCardNumber { card_type, card_issuing_member_state, card_number })
    }
}

impl Parse for FullCardNumber {
    open spec fn parse_ok(d: Seq<u8>, p: int) -> bool {
        let p1 = EquipmentType::parse_end(d, p);
        let p2 = NationNumeric::parse_end(d, p1);
        EquipmentType::parse_ok(d, p)
            && NationNumeric::parse_ok(d, p1)
            && bytes_ok(d, p2, 16)
            && EquipmentType::from_byte(d[p]) != Some(EquipmentType::RFU)
    }

    open spec fn parse_end(d: Seq<u8>, p: int) -> int {
        let p1 = EquipmentType::parse_end(d, p);
        let p2 = NationNumeric::parse_end(d, p1);
        let p3 = bytes_end(d, p2, 16);
        if !EquipmentType::parse_ok(d, p) {
            p1
        } else if !NationNumeric::parse_ok(d, p1) {
            p2
        } else if !bytes_ok(d, p2, 16) {
            p3
        } else {
            p3
        }
    }

    open spec fn parsed_as(d: Seq<u8>, p: int, v: FullCardNumber) -> bool {
        let p1 = EquipmentType::parse_end(d, p);
        let p2 = NationNumeric::parse_end(d, p1);
        EquipmentType::parsed_as(d, p, v.card_type)
            && NationNumeric::parsed_as(d, p1, v.card_issuing_member_state)
            && FullCardNumber::card_number_as(EquipmentType::from_byte(d[p]), d, p2, v.card_number)
    }

    open spec fn parse_err(d: Seq<u8>, p: int) -> ParseError {
        let p1 = EquipmentType::parse_end(d, p);
        let p2 = NationNumeric::parse_end(d, p1);
        if !EquipmentType::parse_ok(d, p) {
            EquipmentType::parse_err(d, p)
        } else if !NationNumeric::parse_ok(d, p1) {
            NationNumeric::parse_err(d, p1)
        } else if !bytes_ok(d, p2, 16) {
            ParseError::UnexpectedEnd
        } else {
            ParseError::InvalidValue
        }
    }

    fn parse(cursor: &mut Cursor) -> (res: Result<FullCardNumber, ParseError>) {
        FullCardNumber::parse(cursor)
    }
}

/// ControlType (appendix 2.53) as generation 1 defines it: the four high bits `cvpd`.
#[derive(Debug)]
pub struct ControlType {
    pub card_downloading: bool,
    pub vu_downloading: bool,
    pub printing: bool,
    pub display: bool,
}

impl ControlType {
    /// Reads a `ControlType` at the reader's position.
    pub fn parse(cursor: &mut Cursor) -> (res: Result<ControlType, ParseError>)
        ensures
            final(cursor).data() == old(cursor).data(),
            old(cursor).pos() <= final(cursor).pos(),
            final(cursor).pos() == ControlType::parse_end(old(cursor).data(), old(cursor).pos()),
            res is Ok <==> ControlType::parse_ok(old(cursor).data(), old(cursor).pos()),
            res matches Ok(v) ==> ControlType::parsed_as(old(cursor).data(), old(cursor).pos(), v),
            res matches Err(e) ==> e == ControlType::parse_err(old(cursor).data(), old(cursor).pos()),
    {
        let b = cursor.read_u8()?;
        Ok(
            ControlType {
                card_downloading: (b / 128) % 2 == 1,
                vu_downloading: (b / 64) % 2 == 1,
                printing: (b / 32) % 2 == 1,
                display: (b / 16) % 2 == 1,
            },
        )
    }
}

impl Parse for ControlType {
    open spec fn parse_ok(d: Seq<u8>, p: int) -> bool {
        bytes_ok(d, p, 1)
    }

    open spec fn parse_end(d: Seq<u8>, p: int) -> int {
        bytes_end(d, p, 1)
    }

    open spec fn parse_err(d: Seq<u8>, p: int) -> ParseError {
        ParseError::UnexpectedEnd
    }

    open spec fn parsed_as(d: Seq<u8>, p: int, v: ControlType) -> bool {
        &&& v.card_downloading == ((d[p] / 128) % 2 == 1)
        &&& v.vu_downloading == ((d[p] / 64) % 2 == 1)
        &&& v.printing == ((d[p] / 32) % 2 == 1)
        &&& v.display == ((d[p] / 16) % 2 == 1)
    }

    fn parse(cursor: &mut Cursor) -> (res: Result<ControlType, ParseError>) {
        ControlType::parse(cursor)
    }
}

/// PreviousVehicleInfo (appendix 2.118) as generation 1 defines it.
#[derive(Debug)]
pub struct PreviousVehicleInfo {
    pub vehicle_registration_identification: VehicleRegistrationIdentification,
    pub card_withdrawal_time: TimeReal,
}

impl PreviousVehicleInfo {
    /// Reads a `PreviousVehicleInfo` at the reader's position.
    pub fn parse(cursor: &mut Cursor) -> (res: Result<PreviousVehicleInfo, ParseError>)
        ensures
            final(cursor).data() == old(cursor).data(),
            old(cursor).pos() <= final(cursor).pos(),
            final(cursor).pos() == PreviousVehicleInfo::parse_end(old(cursor).data(), old(cursor).pos()),
            res is Ok <==> PreviousVehicleInfo::parse_ok(old(cursor).data(), old(cursor).pos()),
            res matches Ok(v) ==> PreviousVehicleInfo::parsed_as(old(cursor).data(), old(cursor).pos(), v),
            res matches Err(e) ==> e == PreviousVehicleInfo::parse_err(old(cursor).data(), old(cursor).pos()),
    {
        let vehicle_registration_identification = VehicleRegistrationIdentification::parse(cursor)?;
        let card_withdrawal_time = TimeReal::parse(cursor)?;
        Ok(PreviousVehicleInfo { vehicle_registration_identification, card_withdrawal_time })
    }
}

impl Parse for PreviousVehicleInfo {
    open spec fn parse_ok(d: Seq<u8>, p: int) -> bool {
        let p1 = VehicleRegistrationIdentification::parse_end(d, p);
        VehicleRegistrationIdentification::parse_ok(d, p)
            && TimeReal::parse_ok(d, p1)
    }

    open spec fn parse_end(d: Seq<u8>, p: int) -> int {
        let p1 = VehicleRegistrationIdentification::parse_end(d, p);
        let p2 = TimeReal::parse_end(d, p1);
        if !VehicleRegistrationIdentification::parse_ok(d, p) {
            p1
        } else if !TimeReal::parse_ok(d, p1) {
            p2
        } else {
            p2
        }
    }

    open spec fn parsed_as(d: Seq<u8>, p: int, v: PreviousVehicleInfo) -> bool {
        let p1 = VehicleRegistrationIdentification::parse_end(d, p);
        VehicleRegistrationIdentification::parsed_as(d, p, v.vehicle_registration_identification)
            && TimeReal::parsed_as(d, p1, v.card_withdrawal_time)
    }

    open spec fn parse_err(d: Seq<u8>, p: int) -> ParseError {
        let p1 = VehicleRegistrationIdentification::parse_end(d, p);
        if !VehicleRegistrationIdentification::parse_ok(d, p) {
            VehicleRegistrationIdentification::parse_err(d, p)
        } else if !TimeReal::parse_ok(d, p1) {
            TimeReal::parse_err(d, p1)
        } else {
            ParseError::InvalidValue
        }
    }

    fn parse(cursor: &mut Cursor) -> (res: Result<PreviousVehicleInfo, ParseError>) {
        PreviousVehicleInfo::parse(cursor)
    }
}

/// RegionNumeric (appendix 2.122): the regions of Spain.
#[derive(Debug, Clone, Copy, PartialEq, Eq, Structural)]
pub enum RegionNumeric {
    NoInformation,
    Andalucia,
    Aragon,
    Asturias,
    Cantabria,
    Cataluna,
    CastillaLeon,
    CastillaLaMancha,
    Valencia,
    Extremadura,
    Galicia,
    Baleares,
    Canarias,
    LaRioja,
    Madrid,
    Murcia,
    Navarra,
    PaisVasco,
}

impl RegionNumeric {
    /// The value that the byte `b` encodes, if any.
    pub open spec fn from_byte(b: u8) -> Option<RegionNumeric> {
        if b == 0x00 {
            Some(RegionNumeric::NoInformation)
        } else if b == 0x01 {
            Some(RegionNumeric::Andalucia)
        } else if b == 0x02 {
            Some(RegionNumeric::Aragon)
        } else if b == 0x03 {
            Some(RegionNumeric::Asturias)
        } else if b == 0x04 {
            Some(RegionNumeric::Cantabria)
        } else if b == 0x05 {
            Some(RegionNumeric::Cataluna)
        } else if b == 0x06 {
            Some(RegionNumeric::CastillaLeon)
        } else if b == 0x07 {
            Some(RegionNumeric::CastillaLaMancha)
        } else if b == 0x08 {
            Some(RegionNumeric::Valencia)
        } else if b == 0x09 {
            Some(RegionNumeric::Extremadura)
        } else if b == 0x0A {
            Some(RegionNumeric::Galicia)
        } else if b == 0x0B {
            Some(RegionNumeric::Baleares)
        } else if b == 0x0C {
            Some(RegionNumeric::Canarias)
        } else if b == 0x0D {
            Some(RegionNumeric::LaRioja)
        } else if b == 0x0E {
            Some(RegionNumeric::Madrid)
        } else if b == 0x0F {
            Some(RegionNumeric::Murcia)
        } else if b == 0x10 {
            Some(RegionNumeric::Navarra)
        } else if b == 0x11 {
            Some(RegionNumeric::PaisVasco)
        } else {
            None
        }
    }

    /// Decodes one byte.
    pub fn decode(b: u8) -> (r: Option<RegionNumeric>)
        ensures
            r == RegionNumeric::from_byte(b),
    {
        if b == 0x00 {
            Some(RegionNumeric::NoInformation)
        } else if b == 0x01 {
            Some(RegionNumeric::Andalucia)
        } else if b == 0x02 {
            Some(RegionNumeric::Aragon)
        } else if b == 0x03 {
            Some(RegionNumeric::Asturias)
        } else if b == 0x04 {
            Some(RegionNumeric::Cantabria)
        } else if b == 0x05 {
            Some(RegionNumeric::Cataluna)
        } else if b == 0x06 {
            Some(RegionNumeric::CastillaLeon)
        } else if b == 0x07 {
            Some(RegionNumeric::CastillaLaMancha)
        } else if b == 0x08 {
            Some(RegionNumeric::Valencia)
        } else if b == 0x09 {
            Some(RegionNumeric::Extremadura)
        } else if b == 0x0A {
            Some(RegionNumeric::Galicia)
        } else if b == 0x0B {
            Some(RegionNumeric::Baleares)
        } else if b == 0x0C {
            Some(RegionNumeric::Canarias)
        } else if b == 0x0D {
            Some(RegionNumeric::LaRioja)
        } else if b == 0x0E {
            Some(RegionNumeric::Madrid)
        } else if b == 0x0F {
            Some(RegionNumeric::Murcia)
        } else if b == 0x10 {
            Some(RegionNumeric::Navarra)
        } else if b == 0x11 {
            Some(RegionNumeric::PaisVasco)
        } else {
            None
        }
    }
}

impl RegionNumeric {
    /// Reads a `RegionNumeric` at the reader's position.
    pub fn parse(cursor: &mut Cursor) -> (res: Result<RegionNumeric, ParseError>)
        ensures
            final(cursor).data() == old(cursor).data(),
            old(cursor).pos() <= final(cursor).pos(),
            final(cursor).pos() == RegionNumeric::parse_end(old(cursor).data(), old(cursor).pos()),
            res is Ok <==> RegionNumeric::parse_ok(old(cursor).data(), old(cursor).pos()),
            res matches Ok(v) ==> RegionNumeric::parsed_as(old(cursor).data(), old(cursor).pos(), v),
            res matches Err(e) ==> e == RegionNumeric::parse_err(old(cursor).data(), old(cursor).pos()),
    {
        let b = cursor.read_u8()?;
        match RegionNumeric::decode(b) {
            Some(v) => Ok(v),
            None => Err(ParseError::InvalidValue),
        }
    }
}

impl Parse for RegionNumeric {
    open spec fn parse_ok(d: Seq<u8>, p: int) -> bool {
        bytes_ok(d, p, 1) && RegionNumeric::from_byte(d[p]) is Some
    }

    open spec fn parse_end(d: Seq<u8>, p: int) -> int {
        bytes_end(d, p, 1)
    }

    open spec fn parse_err(d: Seq<u8>, p: int) -> ParseError {
        if !bytes_ok(d, p, 1) {
            ParseError::UnexpectedEnd
        } else {
            ParseError::InvalidValue
        }
    }

    open spec fn parsed_as(d: Seq<u8>, p: int, v: RegionNumeric) -> bool {
        RegionNumeric::from_byte(d[p]) == Some(v)
    }

    fn parse(cursor: &mut Cursor) -> (res: Result<RegionNumeric, ParseError>) {
        RegionNumeric::parse(cursor)
    }
}

/// EntryTypeDailyWorkPeriod (appendix 2.66) as generation 1 defines it.
#[derive(Debug, Clone, Copy, PartialEq, Eq, Structural)]
pub enum EntryTypeDailyWorkPeriod {
    BeginRelatedTimeCardInsertionTimeOrTimeOfEntry,
    EndRelatedTimeCardWithdrawalTimeOrTimeOfEntry,
    BeginRelatedTimeManuallyEntered,
    EndRelatedTimeManuallyEntered,
    BeginRelatedTimeAssumedByVU,
    EndRelatedTimeAssumedByVU,
}

impl EntryTypeDailyWorkPeriod {
    /// The value that the byte `b` encodes, if any.
    pub open spec fn from_byte(b: u8) -> Option<EntryTypeDailyWorkPeriod> {
        if b == 0x00 {
            Some(EntryTypeDailyWorkPeriod::BeginRelatedTimeCardInsertionTimeOrTimeOfEntry)
        } else if b == 0x01 {
            Some(EntryTypeDailyWorkPeriod::EndRelatedTimeCardWithdrawalTimeOrTimeOfEntry)
        } else if b == 0x02 {
            Some(EntryTypeDailyWorkPeriod::BeginRelatedTimeManuallyEntered)
        } else if b == 0x03 {
            Some(EntryTypeDailyWorkPeriod::EndRelatedTimeManuallyEntered)
        } else if b == 0x04 {
            Some(EntryTypeDailyWorkPeriod::BeginRelatedTimeAssumedByVU)
        } else if b == 0x05 {
            Some(EntryTypeDailyWorkPeriod::EndRelatedTimeAssumedByVU)
        } else {
            None
        }
    }

    /// Decodes one byte.
    pub fn decode(b: u8) -> (r: Option<EntryTypeDailyWorkPeriod>)
        ensures
            r == EntryTypeDailyWorkPeriod::from_byte(b),
    {
        if b == 0x00 {
            Some(EntryTypeDailyWorkPeriod::BeginRelatedTimeCardInsertionTimeOrTimeOfEntry)
        } else if b == 0x01 {
            Some(EntryTypeDailyWorkPeriod::EndRelatedTimeCardWithdrawalTimeOrTimeOfEntry)
        } else if b == 0x02 {
            Some(EntryTypeDailyWorkPeriod::BeginRelatedTimeManuallyEntered)
        } else if b == 0x03 {
            Some(EntryTypeDailyWorkPeriod::EndRelatedTimeManuallyEntered)
        } else if b == 0x04 {
            Some(EntryTypeDailyWorkPeriod::BeginRelatedTimeAssumedByVU)
        } else if b == 0x05 {
            Some(EntryTypeDailyWorkPeriod::EndRelatedTimeAssumedByVU)
        } else {
            None
        }
    }
}

impl EntryTypeDailyWorkPeriod {
    /// Reads a `EntryTypeDailyWorkPeriod` at the reader's position.
    pub fn parse(cursor: &mut Cursor) -> (res: Result<EntryTypeDailyWorkPeriod, ParseError>)
        ensures
            final(cursor).data() == old(cursor).data(),
            old(cursor).pos() <= final(cursor).pos(),
            final(cursor).pos() == EntryTypeDailyWorkPeriod::parse_end(old(cursor).data(), old(cursor).pos()),
            res is Ok <==> EntryTypeDailyWorkPeriod::parse_ok(old(cursor).data(), old(cursor).pos()),
            res matches Ok(v) ==> EntryTypeDailyWorkPeriod::parsed_as(old(cursor).data(), old(cursor).pos(), v),
            res matches Err(e) ==> e == EntryTypeDailyWorkPeriod::parse_err(old(cursor).data(), old(cursor).pos()),
    {
        let b = cursor.read_u8()?;
        match EntryTypeDailyWorkPeriod::decode(b) {
            Some(v) => Ok(v),
            None => Err(ParseError::InvalidValue),
        }
    }
}

impl Parse for EntryTypeDailyWorkPeriod {
    open spec fn parse_ok(d: Seq<u8>, p: int) -> bool {
        bytes_ok(d, p, 1) && EntryTypeDailyWorkPeriod::from_byte(d[p]) is Some
    }

    open spec fn parse_end(d: Seq<u8>, p: int) -> int {
        bytes_end(d, p, 1)
    }

    open spec fn parse_err(d: Seq<u8>, p: int) -> ParseError {
        if !bytes_ok(d, p, 1) {
            ParseError::UnexpectedEnd
        } else {
            ParseError::InvalidValue
        }
    }

    open spec fn parsed_as(d: Seq<u8>, p: int, v: EntryTypeDailyWorkPeriod) -> bool {
        EntryTypeDailyWorkPeriod::from_byte(d[p]) == Some(v)
    }

    fn parse(cursor: &mut Cursor) -> (res: Result<EntryTypeDailyWorkPeriod, ParseError>) {
        EntryTypeDailyWorkPeriod::parse(cursor)
    }
}

/// PlaceRecord (appendix 2.117) as generation 1 defines it: ten bytes.
#[derive(Debug)]
pub struct PlaceRecord {
    pub entry_time: TimeReal,
    pub entry_type_daily_work_period: EntryTypeDailyWorkPeriod,
    pub daily_work_period_country: NationNumeric,
    pub daily_work_period_region: RegionNumeric,
    pub vehicle_odometer_value: OdometerShort,
}

impl PlaceRecord {
    /// The number of bytes of a PlaceRecord.
    pub const SIZE: usize = 10;

    /// The fields can be read from position `p` of `d`.
    pub open spec fn fields_ok(d: Seq<u8>, p: int) -> bool {
        let p1 = TimeReal::parse_end(d, p);
        let p2 = EntryTypeDailyWorkPeriod::parse_end(d, p1);
        let p3 = NationNumeric::parse_end(d, p2);
        let p4 = RegionNumeric::parse_end(d, p3);
        TimeReal::parse_ok(d, p)
            && EntryTypeDailyWorkPeriod::parse_ok(d, p1)
            && NationNumeric::parse_ok(d, p2)
            && RegionNumeric::parse_ok(d, p3)
            && OdometerShort::parse_ok(d, p4)
    }

    /// The error of a read of the fields from position `p` of `d` that fails.
    pub open spec fn fields_err(d: Seq<u8>, p: int) -> ParseError {
        let p1 = TimeReal::parse_end(d, p);
        let p2 = EntryTypeDailyWorkPeriod::parse_end(d, p1);
        let p3 = NationNumeric::parse_end(d, p2);
        let p4 = RegionNumeric::parse_end(d, p3);
        if !TimeReal::parse_ok(d, p) {
            TimeReal::parse_err(d, p)
        } else if !EntryTypeDailyWorkPeriod::parse_ok(d, p1) {
            EntryTypeDailyWorkPeriod::parse_err(d, p1)
        } else if !NationNumeric::parse_ok(d, p2) {
            NationNumeric::parse_err(d, p2)
        } else if !RegionNumeric::parse_ok(d, p3) {
            RegionNumeric::parse_err(d, p3)
        } else if !OdometerShort::parse_ok(d, p4) {
            OdometerShort::parse_err(d, p4)
        } else {
            ParseError::InvalidValue
        }
    }

    /// `v` holds the fields read from position `p` of `d`.
    pub open spec fn fields_as(d: Seq<u8>, p: int, v: PlaceRecord) -> bool {
        let p1 = TimeReal::parse_end(d, p);
        let p2 = EntryTypeDailyWorkPeriod::parse_end(d, p1);
        let p3 = NationNumeric::parse_end(d, p2);
        let p4 = RegionNumeric::parse_end(d, p3);
        TimeReal::parsed_as(d, p, v.entry_time)
            && EntryTypeDailyWorkPeriod::parsed_as(d, p1, v.entry_type_daily_work_period)
            && NationNumeric::parsed_as(d, p2, v.daily_work_period_country)
            && RegionNumeric::parsed_as(d, p3, v.daily_work_period_region)
            && OdometerShort::parsed_as(d, p4, v.vehicle_odometer_value)
    }
}

impl PlaceRecord {
    /// Reads a `PlaceRecord` at the reader's position.
    pub fn parse(cursor: &mut Cursor) -> (res: Result<PlaceRecord, ParseError>)
        ensures
            final(cursor).data() == old(cursor).data(),
            old(cursor).pos() <= final(cursor).pos(),
            final(cursor).pos() == PlaceRecord::parse_end(old(cursor).data(), old(cursor).pos()),
            res is Ok <==> PlaceRecord::parse_ok(old(cursor).data(), old(cursor).pos()),
            res matches Ok(v) ==> PlaceRecord::parsed_as(old(cursor).data(), old(cursor).pos(), v),
            res matches Err(e) ==> e == PlaceRecord::parse_err(old(cursor).data(), old(cursor).pos()),
    {
        let mut inner = cursor.take_exact(10)?;
        let entry_time = TimeReal::parse(&mut inner)?;
        let entry_type_daily_work_period = EntryTypeDailyWorkPeriod::parse(&mut inner)?;
        let daily_work_period_country = NationNumeric::parse(&mut inner)?;
        let daily_work_period_region = RegionNumeric::parse(&mut inner)?;
        let vehicle_odometer_value = OdometerShort::parse(&mut inner)?;
        Ok(PlaceRecord { entry_time, entry_type_daily_work_period, daily_work_period_country, daily_work_period_region, vehicle_odometer_value })
    }
}

impl Parse for PlaceRecord {
    open spec fn parse_ok(d: Seq<u8>, p: int) -> bool {
        bytes_ok(d, p, 10) && PlaceRecord::fields_ok(d.subrange(p, p + 10), 0)
    }

    open spec fn parse_end(d: Seq<u8>, p: int) -> int {
        bytes_end(d, p, 10)
    }

    open spec fn parsed_as(d: Seq<u8>, p: int, v: PlaceRecord) -> bool {
        PlaceRecord::fields_as(d.subrange(p, p + 10), 0, v)
    }

    open spec fn parse_err(d: Seq<u8>, p: int) -> ParseError {
        if !bytes_ok(d, p, 10) {
            ParseError::UnexpectedEnd
        } else {
            PlaceRecord::fields_err(d.subrange(p, p + 10), 0)
        }
    }

    fn parse(cursor: &mut Cursor) -> (res: Result<PlaceRecord, ParseError>) {
        PlaceRecord::parse(cursor)
    }
}

impl Timed for PlaceRecord {
    open spec fn time_key(&self) -> int {
        self.entry_time.0 as int
    }

    fn time_of(&self) -> (r: u32) {
        self.entry_time.0
    }
}

/// DriverCardApplicationIdentification (appendix 2.61) as generation 1 defines it.
#[derive(Debug)]
pub struct DriverCardApplicationIdentification {
    pub type_of_tachograph_card_id: EquipmentType,
    pub card_structure_version: Vec<u8>,
    pub no_of_events_per_type: u8,
    pub no_of_faults_per_type: u8,
    pub activity_structure_length: u16,
    pub no_of_card_vehicle_records: u16,
    pub no_of_card_place_records: u8,
}

impl DriverCardApplicationIdentification {
    /// Reads a `DriverCardApplicationIdentification` at the reader's position.
    pub fn parse(cursor: &mut Cursor) -> (res: Result<DriverCardApplicationIdentification, ParseError>)
        ensures
            final(cursor).data() == old(cursor).data(),
            old(cursor).pos() <= final(cursor).pos(),
            final(cursor).pos() == DriverCardApplicationIdentification::parse_end(old(cursor).data(), old(cursor).pos()),
            res is Ok <==> DriverCardApplicationIdentification::parse_ok(old(cursor).data(), old(cursor).pos()),
            res matches Ok(v) ==> DriverCardApplicationIdentification::parsed_as(old(cursor).data(), old(cursor).pos(), v),
            res matches Err(e) ==> e == DriverCardApplicationIdentification::parse_err(old(cursor).data(), old(cursor).pos()),
    {
        let type_of_tachograph_card_id = EquipmentType::parse(cursor)?;
        let card_structure_version = cursor.read_bytes(2)?;
        let no_of_events_per_type = u8::parse(cursor)?;
        let no_of_faults_per_type = u8::parse(cursor)?;
        let activity_structure_length = u16::parse(cursor)?;
        let no_of_card_vehicle_records = u16::parse(cursor)?;
        let no_of_card_place_records = u8::parse(cursor)?;
        Ok(DriverCardApplicationIdentification { type_of_tachograph_card_id, card_structure_version, no_of_events_per_type, no_of_faults_per_type, activity_structure_length, no_of_card_vehicle_records, no_of_card_place_records })
    }
}

impl Parse for DriverCardApplicationIdentification {
    open spec fn parse_ok(d: Seq<u8>, p: int) -> bool {
        let p1 = EquipmentType::parse_end(d, p);
        let p2 = bytes_end(d, p1, 2);
        let p3 = u8::parse_end(d, p2);
        let p4 = u8::parse_end(d, p3);
        let p5 = u16::parse_end(d, p4);
        let p6 = u16::parse_end(d, p5);
        EquipmentType::parse_ok(d, p)
            && bytes_ok(d, p1, 2)
            && u8::parse_ok(d, p2)
            && u8::parse_ok(d, p3)
            && u16::parse_ok(d, p4)
            && u16::parse_ok(d, p5)
            && u8::parse_ok(d, p6)
    }

    open spec fn parse_end(d: Seq<u8>, p: int) -> int {
        let p1 = EquipmentType::parse_end(d, p);
        let p2 = bytes_end(d, p1, 2);
        let p3 = u8::parse_end(d, p2);
        let p4 = u8::parse_end(d, p3);
        let p5 = u16::parse_end(d, p4);
        let p6 = u16::parse_end(d, p5);
        let p7 = u8::parse_end(d, p6);
        if !EquipmentType::parse_ok(d, p) {
            p1
        } else if !bytes_ok(d, p1, 2) {
            p2
        } else if !u8::parse_ok(d, p2) {
            p3
        } else if !u8::parse_ok(d, p3) {
            p4
        } else if !u16::parse_ok(d, p4) {
            p5
        } else if !u16::parse_ok(d, p5) {
            p6
        } else if !u8::parse_ok(d, p6) {
            p7
        } else {
            p7
        }
    }

    open spec fn parsed_as(d: Seq<u8>, p: int, v: DriverCardApplicationIdentification) -> bool {
        let p1 = EquipmentType::parse_end(d, p);
        let p2 = bytes_end(d, p1, 2);
        let p3 = u8::parse_end(d, p2);
        let p4 = u8::parse_end(d, p3);
        let p5 = u16::parse_end(d, p4);
        let p6 = u16::parse_end(d, p5);
        EquipmentType::parsed_as(d, p, v.type_of_tachograph_card_id)
            && v.card_structure_version@ == d.subrange(p1, p1 + 2)
            && u8::parsed_as(d, p2, v.no_of_events_per_type)
            && u8::parsed_as(d, p3, v.no_of_faults_per_type)
            && u16::parsed_as(d, p4, v.activity_structure_length)
            && u16::parsed_as(d, p5, v.no_of_card_vehicle_records)
            && u8::parsed_as(d, p6, v.no_of_card_place_records)
    }

    open spec fn parse_err(d: Seq<u8>, p: int) -> ParseError {
        let p1 = EquipmentType::parse_end(d, p);
        let p2 = bytes_end(d, p1, 2);
        let p3 = u8::parse_end(d, p2);
        let p4 = u8::parse_end(d, p3);
        let p5 = u16::parse_end(d, p4);
        let p6 = u16::parse_end(d, p5);
        if !EquipmentType::parse_ok(d, p) {
            EquipmentType::parse_err(d, p)
        } else if !bytes_ok(d, p1, 2) {
            ParseError::UnexpectedEnd
        } else if !u8::parse_ok(d, p2) {
            u8::parse_err(d, p2)
        } else if !u8::parse_ok(d, p3) {
            u8::parse_err(d, p3)
        } else if !u16::parse_ok(d, p4) {
            u16::parse_err(d, p4)
        } else if !u16::parse_ok(d, p5) {
            u16::parse_err(d, p5)
        } else if !u8::parse_ok(d, p6) {
            u8::parse_err(d, p6)
        } else {
            ParseError::InvalidValue
        }
    }

    fn parse(cursor: &mut Cursor) -> (res: Result<DriverCardApplicationIdentification, ParseError>) {
        DriverCardApplicationIdentification::parse(cursor)
    }
}

/// CardEventRecord (appendix 2.20): 24 bytes.
#[derive(Debug)]
pub struct CardEventRecord {
    pub event_type: EventFaultType,
    pub event_begin_time: TimeReal,
    pub event_end_time: TimeReal,
    pub event_vehicle_registration: VehicleRegistrationIdentification,
}

impl CardEventRecord {
    /// The number of bytes of a CardEventRecord.
    pub const SIZE: usize = 24;

    /// The fields can be read from position `p` of `d`.
    pub open spec fn fields_ok(d: Seq<u8>, p: int) -> bool {
        let p1 = EventFaultType::parse_end(d, p);
        let p2 = TimeReal::parse_end(d, p1);
        let p3 = TimeReal::parse_end(d, p2);
        EventFaultType::parse_ok(d, p)
            && TimeReal::parse_ok(d, p1)
            && TimeReal::parse_ok(d, p2)
            && VehicleRegistrationIdentification::parse_ok(d, p3)
    }

    /// The error of a read of the fields from position `p` of `d` that fails.
    pub open spec fn fields_err(d: Seq<u8>, p: int) -> ParseError {
        let p1 = EventFaultType::parse_end(d, p);
        let p2 = TimeReal::parse_end(d, p1);
        let p3 = TimeReal::parse_end(d, p2);
        if !EventFaultType::parse_ok(d, p) {
            EventFaultType::parse_err(d, p)
        } else if !TimeReal::parse_ok(d, p1) {
            TimeReal::parse_err(d, p1)
        } else if !TimeReal::parse_ok(d, p2) {
            TimeReal::parse_err(d, p2)
        } else if !VehicleRegistrationIdentification::parse_ok(d, p3) {
            VehicleRegistrationIdentification::parse_err(d, p3)
        } else {
            ParseError::InvalidValue
        }
    }

    /// `v` holds the fields read from position `p` of `d`.
    pub open spec fn fields_as(d: Seq<u8>, p: int, v: CardEventRecord) -> bool {
        let p1 = EventFaultType::parse_end(d, p);
        let p2 = TimeReal::parse_end(d, p1);
        let p3 = TimeReal::parse_end(d, p2);
        EventFaultType::parsed_as(d, p, v.event_type)
            && TimeReal::parsed_as(d, p1, v.event_begin_time)
            && TimeReal::parsed_as(d, p2, v.event_end_time)
            && VehicleRegistrationIdentification::parsed_as(d, p3, v.event_vehicle_registration)
    }
}

impl CardEventRecord {
    /// Reads a `CardEventRecord` at the reader's position.
    pub fn parse(cursor: &mut Cursor) -> (res: Result<CardEventRecord, ParseError>)
        ensures
            final(cursor).data() == old(cursor).data(),
            old(cursor).pos() <= final(cursor).pos(),
            final(cursor).pos() == CardEventRecord::parse_end(old(cursor).data(), old(cursor).pos()),
            res is Ok <==> CardEventRecord::parse_ok(old(cursor).data(), old(cursor).pos()),
            res matches Ok(v) ==> CardEventRecord::parsed_as(old(cursor).data(), old(cursor).pos(), v),
            res matches Err(e) ==> e == CardEventRecord::parse_err(old(cursor).data(), old(cursor).pos()),
    {
        let mut inner = cursor.take_exact(24)?;
        let event_type = EventFaultType::parse(&mut inner)?;
        let event_begin_time = TimeReal::parse(&mut inner)?;
        let event_end_time = TimeReal::parse(&mut inner)?;
        let event_vehicle_registration = VehicleRegistrationIdentification::parse(&mut inner)?;
        Ok(CardEventRecord { event_type, event_begin_time, event_end_time, event_vehicle_registration })
    }
}

impl Parse for CardEventRecord {
    open spec fn parse_ok(d: Seq<u8>, p: int) -> bool {
        bytes_ok(d, p, 24) && CardEventRecord::fields_ok(d.subrange(p, p + 24), 0)
    }

    open spec fn parse_end(d: Seq<u8>, p: int) -> int {
        bytes_end(d, p, 24)
    }

    open spec fn parsed_as(d: Seq<u8>, p: int, v: CardEventRecord) -> bool {
        CardEventRecord::fields_as(d.subrange(p, p + 24), 0, v)
    }

    open spec fn parse_err(d: Seq<u8>, p: int) -> ParseError {
        if !bytes_ok(d, p, 24) {
            ParseError::UnexpectedEnd
        } else {
            CardEventRecord::fields_err(d.subrange(p, p + 24), 0)
        }
    }

    fn parse(cursor: &mut Cursor) -> (res: Result<CardEventRecord, ParseError>) {
        CardEventRecord::parse(cursor)
    }
}

/// The Events_Data file: six groups of event records, each the readable records of its slots; groups without any are left out.
#[derive(Debug)]
pub struct CardEventData(pub Vec<Vec<CardEventRecord>>);

impl CardEventData {
    /// Reads a `CardEventData` of `size` bytes at the reader's position.
    pub fn parse_dyn_size(cursor: &mut Cursor, size: usize) -> (res: Result<CardEventData, ParseError>)
        ensures
            final(cursor).data() == old(cursor).data(),
            old(cursor).pos() <= final(cursor).pos(),
            final(cursor).pos() == CardEventData::dyn_end(old(cursor).data(), old(cursor).pos(), size as int),
            res is Ok <==> CardEventData::dyn_ok(old(cursor).data(), old(cursor).pos(), size as int),
            res matches Ok(v) ==> CardEventData::dyn_as(old(cursor).data(), old(cursor).pos(), size as int, v),
            res matches Err(e) ==> e == CardEventData::dyn_err(old(cursor).data(), old(cursor).pos(), size as int),
    {
        Ok(CardEventData(parse_grouped::<CardEventRecord>(cursor, 6, size / 6 / 24)))
    }
}

impl ParseDyn for CardEventData {
    open spec fn dyn_ok(d: Seq<u8>, p: int, size: int) -> bool {
        true
    }

    open spec fn dyn_end(d: Seq<u8>, p: int, size: int) -> int {
        group_start::<CardEventRecord>(d, p, (size / 6 / 24) as nat, 6)
    }

    open spec fn dyn_err(d: Seq<u8>, p: int, size: int) -> ParseError {
        ParseError::UnexpectedEnd
    }

    open spec fn dyn_as(d: Seq<u8>, p: int, size: int, v: CardEventData) -> bool {
        groups_as(d, nonempty_groups::<CardEventRecord>(d, p, (size / 6 / 24) as nat, 6), v.0@)
    }

    fn parse_dyn_size(cursor: &mut Cursor, size: usize) -> (res: Result<CardEventData, ParseError>) {
        CardEventData::parse_dyn_size(cursor, size)
    }
}

/// CardFaultRecord (appendix 2.22): 24 bytes.
#[derive(Debug)]
pub struct CardFaultRecord {
    pub fault_type: EventFaultType,
    pub fault_begin_time: TimeReal,
    pub fault_end_time: TimeReal,
    pub fault_vehicle_registration: VehicleRegistrationIdentification,
}

impl CardFaultRecord {
    /// The number of bytes of a CardFaultRecord.
    pub const SIZE: usize = 24;

    /// The fields can be read from position `p` of `d`.
    pub open spec fn fields_ok(d: Seq<u8>, p: int) -> bool {
        let p1 = EventFaultType::parse_end(d, p);
        let p2 = TimeReal::parse_end(d, p1);
        let p3 = TimeReal::parse_end(d, p2);
        EventFaultType::parse_ok(d, p)
            && TimeReal::parse_ok(d, p1)
            && TimeReal::parse_ok(d, p2)
            && VehicleRegistrationIdentification::parse_ok(d, p3)
    }

    /// The error of a read of the fields from position `p` of `d` that fails.
    pub open spec fn fields_err(d: Seq<u8>, p: int) -> ParseError {
        let p1 = EventFaultType::parse_end(d, p);
        let p2 = TimeReal::parse_end(d, p1);
        let p3 = TimeReal::parse_end(d, p2);
        if !EventFaultType::parse_ok(d, p) {
            EventFaultType::parse_err(d, p)
        } else if !TimeReal::parse_ok(d, p1) {
            TimeReal::parse_err(d, p1)
        } else if !TimeReal::parse_ok(d, p2) {
            TimeReal::parse_err(d, p2)
        } else if !VehicleRegistrationIdentification::parse_ok(d, p3) {
            VehicleRegistrationIdentification::parse_err(d, p3)
        } else {
            ParseError::InvalidValue
        }
    }

    /// `v` holds the fields read from position `p` of `d`.
    pub open spec fn fields_as(d: Seq<u8>, p: int, v: CardFaultRecord) -> bool {
        let p1 = EventFaultType::parse_end(d, p);
        let p2 = TimeReal::parse_end(d, p1);
        let p3 = TimeReal::parse_end(d, p2);
        EventFaultType::parsed_as(d, p, v.fault_type)
            && TimeReal::parsed_as(d, p1, v.fault_begin_time)
            && TimeReal::parsed_as(d, p2, v.fault_end_time)
            && VehicleRegistrationIdentification::parsed_as(d, p3, v.fault_vehicle_registration)
    }
}

impl CardFaultRecord {
    /// Reads a `CardFaultRecord` at the reader's position.
    pub fn parse(cursor: &mut Cursor) -> (res: Result<CardFaultRecord, ParseError>)
        ensures
            final(cursor).data() == old(cursor).data(),
            old(cursor).pos() <= final(cursor).pos(),
            final(cursor).pos() == CardFaultRecord::parse_end(old(cursor).data(), old(cursor).pos()),
            res is Ok <==> CardFaultRecord::parse_ok(old(cursor).data(), old(cursor).pos()),
            res matches Ok(v) ==> CardFaultRecord::parsed_as(old(cursor).data(), old(cursor).pos(), v),
            res matches Err(e) ==> e == CardFaultRecord::parse_err(old(cursor).data(), old(cursor).pos()),
    {
        let mut inner = cursor.take_exact(24)?;
        let fault_type = EventFaultType::parse(&mut inner)?;
        let fault_begin_time = TimeReal::parse(&mut inner)?;
        let fault_end_time = TimeReal::parse(&mut inner)?;
        let fault_vehicle_registration = VehicleRegistrationIdentification::parse(&mut inner)?;
        Ok(CardFaultRecord { fault_type, fault_begin_time, fault_end_time, fault_vehicle_registration })
    }
}

impl Parse for CardFaultRecord {
    open spec fn parse_ok(d: Seq<u8>, p: int) -> bool {
        bytes_ok(d, p, 24) && CardFaultRecord::fields_ok(d.subrange(p, p + 24), 0)
    }

    open spec fn parse_end(d: Seq<u8>, p: int) -> int {
        bytes_end(d, p, 24)
    }

    open spec fn parsed_as(d: Seq<u8>, p: int, v: CardFaultRecord) -> bool {
        CardFaultRecord::fields_as(d.subrange(p, p + 24), 0, v)
    }

    open spec fn parse_err(d: Seq<u8>, p: int) -> ParseError {
        if !bytes_ok(d, p, 24) {
            ParseError::UnexpectedEnd
        } else {
            CardFaultRecord::fields_err(d.subrange(p, p + 24), 0)
        }
    }

    fn parse(cursor: &mut Cursor) -> (res: Result<CardFaultRecord, ParseError>) {
        CardFaultRecord::parse(cursor)
    }
}

/// The Faults_Data file: two groups of fault records, each the readable records of its slots; groups without any are left out.
#[derive(Debug)]
pub struct CardFaultData(pub Vec<Vec<CardFaultRecord>>);

impl CardFaultData {
    /// Reads a `CardFaultData` of `size` bytes at the reader's position.
    pub fn parse_dyn_size(cursor: &mut Cursor, size: usize) -> (res: Result<CardFaultData, ParseError>)
        ensures
            final(cursor).data() == old(cursor).data(),
            old(cursor).pos() <= final(cursor).pos(),
            final(cursor).pos() == CardFaultData::dyn_end(old(cursor).data(), old(cursor).pos(), size as int),
            res is Ok <==> CardFaultData::dyn_ok(old(cursor).data(), old(cursor).pos(), size as int),
            res matches Ok(v) ==> CardFaultData::dyn_as(old(cursor).data(), old(cursor).pos(), size as int, v),
            res matches Err(e) ==> e == CardFaultData::dyn_err(old(cursor).data(), old(cursor).pos(), size as int),
    {
        Ok(CardFaultData(parse_grouped::<CardFaultRecord>(cursor, 2, size / 2 / 24)))
    }
}

impl ParseDyn for CardFaultData {
    open spec fn dyn_ok(d: Seq<u8>, p: int, size: int) -> bool {
        true
    }

    open spec fn dyn_end(d: Seq<u8>, p: int, size: int) -> int {
        group_start::<CardFaultRecord>(d, p, (size / 2 / 24) as nat, 2)
    }

    open spec fn dyn_err(d: Seq<u8>, p: int, size: int) -> ParseError {
        ParseError::UnexpectedEnd
    }

    open spec fn dyn_as(d: Seq<u8>, p: int, size: int, v: CardFaultData) -> bool {
        groups_as(d, nonempty_groups::<CardFaultRecord>(d, p, (size / 2 / 24) as nat, 2), v.0@)
    }

    fn parse_dyn_size(cursor: &mut Cursor, size: usize) -> (res: Result<CardFaultData, ParseError>) {
        CardFaultData::parse_dyn_size(cursor, size)
    }
}

/// CardVehicleRecord (appendix 2.37) as generation 1 defines it: 31 bytes.
#[derive(Debug)]
pub struct CardVehicleRecord {
    pub vehicle_odometer_begin: OdometerShort,
    pub vehicle_odometer_end: OdometerShort,
    pub vehicle_first_use: TimeReal,
    pub vehicle_last_use: TimeReal,
    pub vehicle_registration: VehicleRegistrationIdentification,
    pub vu_data_block_counter: VuDataBlockCounter,
}

impl CardVehicleRecord {
    /// The number of bytes of a CardVehicleRecord.
    pub const SIZE: usize = 31;

    /// The fields can be read from position `p` of `d`.
    pub open spec fn fields_ok(d: Seq<u8>, p: int) -> bool {
        let p1 = OdometerShort::parse_end(d, p);
        let p2 = OdometerShort::parse_end(d, p1);
        let p3 = TimeReal::parse_end(d, p2);
        let p4 = TimeReal::parse_end(d, p3);
        let p5 = VehicleRegistrationIdentification::parse_end(d, p4);
        OdometerShort::parse_ok(d, p)
            && OdometerShort::parse_ok(d, p1)
            && TimeReal::parse_ok(d, p2)
            && TimeReal::parse_ok(d, p3)
            && VehicleRegistrationIdentification::parse_ok(d, p4)
            && VuDataBlockCounter::parse_ok(d, p5)
    }

    /// The error of a read of the fields from position `p` of `d` that fails.
    pub open spec fn fields_err(d: Seq<u8>, p: int) -> ParseError {
        let p1 = OdometerShort::parse_end(d, p);
        let p2 = OdometerShort::parse_end(d, p1);
        let p3 = TimeReal::parse_end(d, p2);
        let p4 = TimeReal::parse_end(d, p3);
        let p5 = VehicleRegistrationIdentification::parse_end(d, p4);
        if !OdometerShort::parse_ok(d, p) {
            OdometerShort::parse_err(d, p)
        } else if !OdometerShort::parse_ok(d, p1) {
            OdometerShort::parse_err(d, p1)
        } else if !TimeReal::parse_ok(d, p2) {
            TimeReal::parse_err(d, p2)
        } else if !TimeReal::parse_ok(d, p3) {
            TimeReal::parse_err(d, p3)
        } else if !VehicleRegistrationIdentification::parse_ok(d, p4) {
            VehicleRegistrationIdentification::parse_err(d, p4)
        } else if !VuDataBlockCounter::parse_ok(d, p5) {
            VuDataBlockCounter::parse_err(d, p5)
        } else {
            ParseError::InvalidValue
        }
    }

    /// `v` holds the fields read from position `p` of `d`.
    pub open spec fn fields_as(d: Seq<u8>, p: int, v: CardVehicleRecord) -> bool {
        let p1 = OdometerShort::parse_end(d, p);
        let p2 = OdometerShort::parse_end(d, p1);
        let p3 = TimeReal::parse_end(d, p2);
        let p4 = TimeReal::parse_end(d, p3);
        let p5 = VehicleRegistrationIdentification::parse_end(d, p4);
        OdometerShort::parsed_as(d, p, v.vehicle_odometer_begin)
            && OdometerShort::parsed_as(d, p1, v.vehicle_odometer_end)
            && TimeReal::parsed_as(d, p2, v.vehicle_first_use)
            && TimeReal::parsed_as(d, p3, v.vehicle_last_use)
            && VehicleRegistrationIdentification::parsed_as(d, p4, v.vehicle_registration)
            && VuDataBlockCounter::parsed_as(d, p5, v.vu_data_block_counter)
    }
}

impl CardVehicleRecord {
    /// Reads a `CardVehicleRecord` at the reader's position.
    pub fn parse(cursor: &mut Cursor) -> (res: Result<CardVehicleRecord, ParseError>)
        ensures
            final(cursor).data() == old(cursor).data(),
            old(cursor).pos() <= final(cursor).pos(),
            final(cursor).pos() == CardVehicleRecord::parse_end(old(cursor).data(), old(cursor).pos()),
            res is Ok <==> CardVehicleRecord::parse_ok(old(cursor).data(), old(cursor).pos()),
            res matches Ok(v) ==> CardVehicleRecord::parsed_as(old(cursor).data(), old(cursor).pos(), v),
            res matches Err(e) ==> e == CardVehicleRecord::parse_err(old(cursor).data(), old(cursor).pos()),
    {
        let mut inner = cursor.take_exact(31)?;
        let vehicle_odometer_begin = OdometerShort::parse(&mut inner)?;
        let vehicle_odometer_end = OdometerShort::parse(&mut inner)?;
        let vehicle_first_use = TimeReal::parse(&mut inner)?;
        let vehicle_last_use = TimeReal::parse(&mut inner)?;
        let vehicle_registration = VehicleRegistrationIdentification::parse(&mut inner)?;
        let vu_data_block_counter = VuDataBlockCounter::parse(&mut inner)?;
        Ok(CardVehicleRecord { vehicle_odometer_begin, vehicle_odometer_end, vehicle_first_use, vehicle_last_use, vehicle_registration, vu_data_block_counter })
    }
}

impl Parse for CardVehicleRecord {
    open spec fn parse_ok(d: Seq<u8>, p: int) -> bool {
        bytes_ok(d, p, 31) && CardVehicleRecord::fields_ok(d.subrange(p, p + 31), 0)
    }

    open spec fn parse_end(d: Seq<u8>, p: int) -> int {
        bytes_end(d, p, 31)
    }

    open spec fn parsed_as(d: Seq<u8>, p: int, v: CardVehicleRecord) -> bool {
        CardVehicleRecord::fields_as(d.subrange(p, p + 31), 0, v)
    }

    open spec fn parse_err(d: Seq<u8>, p: int) -> ParseError {
        if !bytes_ok(d, p, 31) {
            ParseError::UnexpectedEnd
        } else {
            CardVehicleRecord::fields_err(d.subrange(p, p + 31), 0)
        }
    }

    fn parse(cursor: &mut Cursor) -> (res: Result<CardVehicleRecord, ParseError>) {
        CardVehicleRecord::parse(cursor)
    }
}

/// The Vehicles_Used file: the newest-record pointer and the readable records of its 31-byte slots.
#[derive(Debug)]
pub struct CardVehiclesUsed {
    pub vehicle_pointer_newest_record: u16,
    pub card_vehicle_records: Vec<CardVehicleRecord>,
}

impl CardVehiclesUsed {
    /// Reads a `CardVehiclesUsed` of `size` bytes at the reader's position.
    pub fn parse_dyn_size(cursor: &mut Cursor, size: usize) -> (res: Result<CardVehiclesUsed, ParseError>)
        ensures
            final(cursor).data() == old(cursor).data(),
            old(cursor).pos() <= final(cursor).pos(),
            final(cursor).pos() == CardVehiclesUsed::dyn_end(old(cursor).data(), old(cursor).pos(), size as int),
            res is Ok <==> CardVehiclesUsed::dyn_ok(old(cursor).data(), old(cursor).pos(), size as int),
            res matches Ok(v) ==> CardVehiclesUsed::dyn_as(old(cursor).data(), old(cursor).pos(), size as int, v),
            res matches Err(e) ==> e == CardVehiclesUsed::dyn_err(old(cursor).data(), old(cursor).pos(), size as int),
    {
        let vehicle_pointer_newest_record = cursor.read_u16_be()?;
        let card_vehicle_records = parse_kept::<CardVehicleRecord>(cursor, size / 31);
        Ok(CardVehiclesUsed { vehicle_pointer_newest_record, card_vehicle_records })
    }
}

impl ParseDyn for CardVehiclesUsed {
    open spec fn dyn_ok(d: Seq<u8>, p: int, size: int) -> bool {
        bytes_ok(d, p, 2)
    }

    open spec fn dyn_end(d: Seq<u8>, p: int, size: int) -> int {
        if !bytes_ok(d, p, 2) {
            d.len() as int
        } else {
            attempt_pos::<CardVehicleRecord>(d, p + 2, (size / 31) as nat)
        }
    }

    open spec fn dyn_err(d: Seq<u8>, p: int, size: int) -> ParseError {
        ParseError::UnexpectedEnd
    }

    open spec fn dyn_as(d: Seq<u8>, p: int, size: int, v: CardVehiclesUsed) -> bool {
        v.vehicle_pointer_newest_record == be16(d, p)
            && values_at(d, kept_positions::<CardVehicleRecord>(d, p + 2, (size / 31) as nat), v.card_vehicle_records@)
    }

    fn parse_dyn_size(cursor: &mut Cursor, size: usize) -> (res: Result<CardVehiclesUsed, ParseError>) {
        CardVehiclesUsed::parse_dyn_size(cursor, size)
    }
}

/// The Places file: the newest-record pointer and the readable records of its ten-byte slots, by entry time ascending.
#[derive(Debug)]
pub struct CardPlaceDailyWorkPeriod {
    pub place_pointer_newest_record: u8,
    pub place_records: Vec<PlaceRecord>,
}

impl CardPlaceDailyWorkPeriod {
    /// Reads a `CardPlaceDailyWorkPeriod` of `size` bytes at the reader's position.
    pub fn parse_dyn_size(cursor: &mut Cursor, size: usize) -> (res: Result<CardPlaceDailyWorkPeriod, ParseError>)
        ensures
            final(cursor).data() == old(cursor).data(),
            old(cursor).pos() <= final(cursor).pos(),
            final(cursor).pos() == CardPlaceDailyWorkPeriod::dyn_end(old(cursor).data(), old(cursor).pos(), size as int),
            res is Ok <==> CardPlaceDailyWorkPeriod::dyn_ok(old(cursor).data(), old(cursor).pos(), size as int),
            res matches Ok(v) ==> CardPlaceDailyWorkPeriod::dyn_as(old(cursor).data(), old(cursor).pos(), size as int, v),
            res matches Err(e) ==> e == CardPlaceDailyWorkPeriod::dyn_err(old(cursor).data(), old(cursor).pos(), size as int),
    {
        let place_pointer_newest_record = cursor.read_u8()?;
        let kept = parse_kept::<PlaceRecord>(cursor, size / 10);
        let ghost s0 = kept@;
        let place_records = sort_by_time(kept, false);
        proof {
            let d = old(cursor).data();
            let p = old(cursor).pos();
            assert(values_at(d, kept_positions::<PlaceRecord>(d, p + 1, (size / 10) as nat), s0));
        }
        Ok(CardPlaceDailyWorkPeriod { place_pointer_newest_record, place_records })
    }
}

impl ParseDyn for CardPlaceDailyWorkPeriod {
    open spec fn dyn_ok(d: Seq<u8>, p: int, size: int) -> bool {
        bytes_ok(d, p, 1)
    }

    open spec fn dyn_end(d: Seq<u8>, p: int, size: int) -> int {
        if !bytes_ok(d, p, 1) {
            d.len() as int
        } else {
            attempt_pos::<PlaceRecord>(d, p + 1, (size / 10) as nat)
        }
    }

    open spec fn dyn_err(d: Seq<u8>, p: int, size: int) -> ParseError {
        ParseError::UnexpectedEnd
    }

    open spec fn dyn_as(d: Seq<u8>, p: int, size: int, v: CardPlaceDailyWorkPeriod) -> bool {
        v.place_pointer_newest_record == d[p]
            && sorted_values_at(d, kept_positions::<PlaceRecord>(d, p + 1, (size / 10) as nat), v.place_records@, false)
    }

    fn parse_dyn_size(cursor: &mut Cursor, size: usize) -> (res: Result<CardPlaceDailyWorkPeriod, ParseError>) {
        CardPlaceDailyWorkPeriod::parse_dyn_size(cursor, size)
    }
}

/// CardControlActivityDataRecord (appendix 2.15).
#[derive(Debug)]
pub struct CardControlActivityDataRecord {
    pub control_type: ControlType,
    pub control_time: TimeReal,
    pub control_card_number: FullCardNumber,
    pub control_vehicle_registration: VehicleRegistrationIdentification,
    pub control_download_period_begin: TimeReal,
    pub control_download_period_end: TimeReal,
}

impl CardControlActivityDataRecord {
    /// Reads a `CardControlActivityDataRecord` at the reader's position.
    pub fn parse(cursor: &mut Cursor) -> (res: Result<CardControlActivityDataRecord, ParseError>)
        ensures
            final(cursor).data() == old(cursor).data(),
            old(cursor).pos() <= final(cursor).pos(),
            final(cursor).pos() == CardControlActivityDataRecord::parse_end(old(cursor).data(), old(cursor).pos()),
            res is Ok <==> CardControlActivityDataRecord::parse_ok(old(cursor).data(), old(cursor).pos()),
            res matches Ok(v) ==> CardControlActivityDataRecord::parsed_as(old(cursor).data(), old(cursor).pos(), v),
            res matches Err(e) ==> e == CardControlActivityDataRecord::parse_err(old(cursor).data(), old(cursor).pos()),
    {
        let control_type = ControlType::parse(cursor)?;
        let control_time = TimeReal::parse(cursor)?;
        let control_card_number = FullCardNumber::parse(cursor)?;
        let control_vehicle_registration = VehicleRegistrationIdentification::parse(cursor)?;
        let control_download_period_begin = TimeReal::parse(cursor)?;
        let control_download_period_end = TimeReal::parse(cursor)?;
        Ok(CardControlActivityDataRecord { control_type, control_time, control_card_number, control_vehicle_registration, control_download_period_begin, control_download_period_end })
    }
}

impl Parse for CardControlActivityDataRecord {
    open spec fn parse_ok(d: Seq<u8>, p: int) -> bool {
        let p1 = ControlType::parse_end(d, p);
        let p2 = TimeReal::parse_end(d, p1);
        let p3 = FullCardNumber::parse_end(d, p2);
        let p4 = VehicleRegistrationIdentification::parse_end(d, p3);
        let p5 = TimeReal::parse_end(d, p4);
        ControlType::parse_ok(d, p)
            && TimeReal::parse_ok(d, p1)
            && FullCardNumber::parse_ok(d, p2)
            && VehicleRegistrationIdentification::parse_ok(d, p3)
            && TimeReal::parse_ok(d, p4)
            && TimeReal::parse_ok(d, p5)
    }

    open spec fn parse_end(d: Seq<u8>, p: int) -> int {
        let p1 = ControlType::parse_end(d, p);
        let p2 = TimeReal::parse_end(d, p1);
        let p3 = FullCardNumber::parse_end(d, p2);
        let p4 = VehicleRegistrationIdentification::parse_end(d, p3);
        let p5 = TimeReal::parse_end(d, p4);
        let p6 = TimeReal::parse_end(d, p5);
        if !ControlType::parse_ok(d, p) {
            p1
        } else if !TimeReal::parse_ok(d, p1) {
            p2
        } else if !FullCardNumber::parse_ok(d, p2) {
            p3
        } else if !VehicleRegistrationIdentification::parse_ok(d, p3) {
            p4
        } else if !TimeReal::parse_ok(d, p4) {
            p5
        } else if !TimeReal::parse_ok(d, p5) {
            p6
        } else {
            p6
        }
    }

    open spec fn parsed_as(d: Seq<u8>, p: int, v: CardControlActivityDataRecord) -> bool {
        let p1 = ControlType::parse_end(d, p);
        let p2 = TimeReal::parse_end(d, p1);
        let p3 = FullCardNumber::parse_end(d, p2);
        let p4 = VehicleRegistrationIdentification::parse_end(d, p3);
        let p5 = TimeReal::parse_end(d, p4);
        ControlType::parsed_as(d, p, v.control_type)
            && TimeReal::parsed_as(d, p1, v.control_time)
            && FullCardNumber::parsed_as(d, p2, v.control_card_number)
            && VehicleRegistrationIdentification::parsed_as(d, p3, v.control_vehicle_registration)
            && TimeReal::parsed_as(d, p4, v.control_download_period_begin)
            && TimeReal::parsed_as(d, p5, v.control_download_period_end)
    }

    open spec fn parse_err(d: Seq<u8>, p: int) -> ParseError {
        let p1 = ControlType::parse_end(d, p);
        let p2 = TimeReal::parse_end(d, p1);
        let p3 = FullCardNumber::parse_end(d, p2);
        let p4 = VehicleRegistrationIdentification::parse_end(d, p3);
        let p5 = TimeReal::parse_end(d, p4);
        if !ControlType::parse_ok(d, p) {
            ControlType::parse_err(d, p)
        } else if !TimeReal::parse_ok(d, p1) {
            TimeReal::parse_err(d, p1)
        } else if !FullCardNumber::parse_ok(d, p2) {
            FullCardNumber::parse_err(d, p2)
        } else if !VehicleRegistrationIdentification::parse_ok(d, p3) {
            VehicleRegistrationIdentification::parse_err(d, p3)
        } else if !TimeReal::parse_ok(d, p4) {
            TimeReal::parse_err(d, p4)
        } else if !TimeReal::parse_ok(d, p5) {
            TimeReal::parse_err(d, p5)
        } else {
            ParseError::InvalidValue
        }
    }

    fn parse(cursor: &mut Cursor) -> (res: Result<CardControlActivityDataRecord, ParseError>) {
        CardControlActivityDataRecord::parse(cursor)
    }
}

/// VuDownloadActivityData (appendix 2.195).
#[derive(Debug)]
pub struct VuDownloadActivityData {
    pub downloading_time: TimeReal,
    pub full_card_number: FullCardNumber,
    pub company_or_workshop_name: Name,
}

impl VuDownloadActivityData {
    /// Reads a `VuDownloadActivityData` at the reader's position.
    pub fn parse(cursor: &mut Cursor) -> (res: Result<VuDownloadActivityData, ParseError>)
        ensures
            final(cursor).data() == old(cursor).data(),
            old(cursor).pos() <= final(cursor).pos(),
            final(cursor).pos() == VuDownloadActivityData::parse_end(old(cursor).data(), old(cursor).pos()),
            res is Ok <==> VuDownloadActivityData::parse_ok(old(cursor).data(), old(cursor).pos()),
            res matches Ok(v) ==> VuDownloadActivityData::parsed_as(old(cursor).data(), old(cursor).pos(), v),
            res matches Err(e) ==> e == VuDownloadActivityData::parse_err(old(cursor).data(), old(cursor).pos()),
    {
        let downloading_time = TimeReal::parse(cursor)?;
        let full_card_number = FullCardNumber::parse(cursor)?;
        let company_or_workshop_name = Name::parse(cursor)?;
        Ok(VuDownloadActivityData { downloading_time, full_card_number, company_or_workshop_name })
    }
}

impl Parse for VuDownloadActivityData {
    open spec fn parse_ok(d: Seq<u8>, p: int) -> bool {
        let p1 = TimeReal::parse_end(d, p);
        let p2 = FullCardNumber::parse_end(d, p1);
        TimeReal::parse_ok(d, p)
            && FullCardNumber::parse_ok(d, p1)
            && Name::parse_ok(d, p2)
    }

    open spec fn parse_end(d: Seq<u8>, p: int) -> int {
        let p1 = TimeReal::parse_end(d, p);
        let p2 = FullCardNumber::parse_end(d, p1);
        let p3 = Name::parse_end(d, p2);
        if !TimeReal::parse_ok(d, p) {
            p1
        } else if !FullCardNumber::parse_ok(d, p1) {
            p2
        } else if !Name::parse_ok(d, p2) {
            p3
        } else {
            p3
        }
    }

    open spec fn parsed_as(d: Seq<u8>, p: int, v: VuDownloadActivityData) -> bool {
        let p1 = TimeReal::parse_end(d, p);
        let p2 = FullCardNumber::parse_end(d, p1);
        TimeReal::parsed_as(d, p, v.downloading_time)
            && FullCardNumber::parsed_as(d, p1, v.full_card_number)
            && Name::parsed_as(d, p2, v.company_or_workshop_name)
    }

    open spec fn parse_err(d: Seq<u8>, p: int) -> ParseError {
        let p1 = TimeReal::parse_end(d, p);
        let p2 = FullCardNumber::parse_end(d, p1);
        if !TimeReal::parse_ok(d, p) {
            TimeReal::parse_err(d, p)
        } else if !FullCardNumber::parse_ok(d, p1) {
            FullCardNumber::parse_err(d, p1)
        } else if !Name::parse_ok(d, p2) {
            Name::parse_err(d, p2)
        } else {
            ParseError::InvalidValue
        }
    }

    fn parse(cursor: &mut Cursor) -> (res: Result<VuDownloadActivityData, ParseError>) {
        VuDownloadActivityData::parse(cursor)
    }
}

/// VuCompanyLocksRecord (appendix 2.185).
#[derive(Debug)]
pub struct VuCompanyLocksRecord {
    pub lock_in_time: TimeReal,
    pub lock_out_time: Option<TimeReal>,
    pub company_name: Name,
    pub company_address: Address,
    pub company_card_number: FullCardNumber,
}

impl VuCompanyLocksRecord {
    /// Reads a `VuCompanyLocksRecord` at the reader's position.
    pub fn parse(cursor: &mut Cursor) -> (res: Result<VuCompanyLocksRecord, ParseError>)
        ensures
            final(cursor).data() == old(cursor).data(),
            old(cursor).pos() <= final(cursor).pos(),
            final(cursor).pos() == VuCompanyLocksRecord::parse_end(old(cursor).data(), old(cursor).pos()),
            res is Ok <==> VuCompanyLocksRecord::parse_ok(old(cursor).data(), old(cursor).pos()),
            res matches Ok(v) ==> VuCompanyLocksRecord::parsed_as(old(cursor).data(), old(cursor).pos(), v),
            res matches Err(e) ==> e == VuCompanyLocksRecord::parse_err(old(cursor).data(), old(cursor).pos()),
    {
        let lock_in_time = TimeReal::parse(cursor)?;
        let lock_out_time = parse_optional::<TimeReal>(cursor);
        let company_name = Name::parse(cursor)?;
        let company_address = Address::parse(cursor)?;
        let company_card_number = FullCardNumber::parse(cursor)?;
        Ok(VuCompanyLocksRecord { lock_in_time, lock_out_time, company_name, company_address, company_card_number })
    }
}

impl Parse for VuCompanyLocksRecord {
    open spec fn parse_ok(d: Seq<u8>, p: int) -> bool {
        let p1 = TimeReal::parse_end(d, p);
        let p2 = TimeReal::parse_end(d, p1);
        let p3 = Name::parse_end(d, p2);
        let p4 = Address::parse_end(d, p3);
        TimeReal::parse_ok(d, p)
            && Name::parse_ok(d, p2)
            && Address::parse_ok(d, p3)
            && FullCardNumber::parse_ok(d, p4)
    }

    open spec fn parse_end(d: Seq<u8>, p: int) -> int {
        let p1 = TimeReal::parse_end(d, p);
        let p2 = TimeReal::parse_end(d, p1);
        let p3 = Name::parse_end(d, p2);
        let p4 = Address::parse_end(d, p3);
        let p5 = FullCardNumber::parse_end(d, p4);
        if !TimeReal::parse_ok(d, p) {
            p1
        } else if !Name::parse_ok(d, p2) {
            p3
        } else if !Address::parse_ok(d, p3) {
            p4
        } else if !FullCardNumber::parse_ok(d, p4) {
            p5
        } else {
            p5
        }
    }

    open spec fn parsed_as(d: Seq<u8>, p: int, v: VuCompanyLocksRecord) -> bool {
        let p1 = TimeReal::parse_end(d, p);
        let p2 = TimeReal::parse_end(d, p1);
        let p3 = Name::parse_end(d, p2);
        let p4 = Address::parse_end(d, p3);
        TimeReal::parsed_as(d, p, v.lock_in_time)
            && optional_as::<TimeReal>(d, p1, v.lock_out_time)
            && Name::parsed_as(d, p2, v.company_name)
            && Address::parsed_as(d, p3, v.company_address)
            && FullCardNumber::parsed_as(d, p4, v.company_card_number)
    }

    open spec fn parse_err(d: Seq<u8>, p: int) -> ParseError {
        let p1 = TimeReal::parse_end(d, p);
        let p2 = TimeReal::parse_end(d, p1);
        let p3 = Name::parse_end(d, p2);
        let p4 = Address::parse_end(d, p3);
        if !TimeReal::parse_ok(d, p) {
            TimeReal::parse_err(d, p)
        } else if !Name::parse_ok(d, p2) {
            Name::parse_err(d, p2)
        } else if !Address::parse_ok(d, p3) {
            Address::parse_err(d, p3)
        } else if !FullCardNumber::parse_ok(d, p4) {
            FullCardNumber::parse_err(d, p4)
        } else {
            ParseError::InvalidValue
        }
    }

    fn parse(cursor: &mut Cursor) -> (res: Result<VuCompanyLocksRecord, ParseError>) {
        VuCompanyLocksRecord::parse(cursor)
    }
}

/// VuCompanyLocksData (appendix 2.184): a count and that many records.
#[derive(Debug)]
pub struct VuCompanyLocksData {
    pub no_of_locks: u8,
    pub vu_company_locks_records: Vec<VuCompanyLocksRecord>,
}

impl VuCompanyLocksData {
    /// Reads a `VuCompanyLocksData` at the reader's position.
    pub fn parse(cursor: &mut Cursor) -> (res: Result<VuCompanyLocksData, ParseError>)
        ensures
            final(cursor).data() == old(cursor).data(),
            old(cursor).pos() <= final(cursor).pos(),
            final(cursor).pos() == VuCompanyLocksData::parse_end(old(cursor).data(), old(cursor).pos()),
            res is Ok <==> VuCompanyLocksData::parse_ok(old(cursor).data(), old(cursor).pos()),
            res matches Ok(v) ==> VuCompanyLocksData::parsed_as(old(cursor).data(), old(cursor).pos(), v),
            res matches Err(e) ==> e == VuCompanyLocksData::parse_err(old(cursor).data(), old(cursor).pos()),
    {
        let no_of_locks = cursor.read_u8()?;
        let vu_company_locks_records = parse_counted::<VuCompanyLocksRecord>(cursor, no_of_locks as usize)?;
        Ok(VuCompanyLocksData { no_of_locks, vu_company_locks_records })
    }
}

impl Parse for VuCompanyLocksData {
    open spec fn parse_ok(d: Seq<u8>, p: int) -> bool {
        bytes_ok(d, p, 1) && leading_successes::<VuCompanyLocksRecord>(d, p + 1, d[p] as nat) == d[p]
    }

    open spec fn parse_end(d: Seq<u8>, p: int) -> int {
        if !bytes_ok(d, p, 1) {
            d.len() as int
        } else {
            counted_end::<VuCompanyLocksRecord>(d, p + 1, d[p] as nat)
        }
    }

    open spec fn parse_err(d: Seq<u8>, p: int) -> ParseError {
        if !bytes_ok(d, p, 1) {
            ParseError::UnexpectedEnd
        } else {
            counted_err::<VuCompanyLocksRecord>(d, p + 1, d[p] as nat)
        }
    }

    open spec fn parsed_as(d: Seq<u8>, p: int, v: VuCompanyLocksData) -> bool {
        v.no_of_locks == d[p] && values_at(
            d,
            attempt_positions::<VuCompanyLocksRecord>(d, p + 1, d[p] as nat),
            v.vu_company_locks_records@,
        )
    }

    fn parse(cursor: &mut Cursor) -> (res: Result<VuCompanyLocksData, ParseError>) {
        VuCompanyLocksData::parse(cursor)
    }
}

/// VuControlActivityRecord (appendix 2.187).
#[derive(Debug)]
pub struct VuControlActivityRecord {
    pub control_type: ControlType,
    pub control_time: TimeReal,
    pub control_card_number: FullCardNumber,
    pub download_period_begin_time: TimeReal,
    pub download_period_end_time: TimeReal,
}

impl VuControlActivityRecord {
    /// Reads a `VuControlActivityRecord` at the reader's position.
    pub fn parse(cursor: &mut Cursor) -> (res: Result<VuControlActivityRecord, ParseError>)
        ensures
            final(cursor).data() == old(cursor).data(),
            old(cursor).pos() <= final(cursor).pos(),
            final(cursor).pos() == VuControlActivityRecord::parse_end(old(cursor).data(), old(cursor).pos()),
            res is Ok <==> VuControlActivityRecord::parse_ok(old(cursor).data(), old(cursor).pos()),
            res matches Ok(v) ==> VuControlActivityRecord::parsed_as(old(cursor).data(), old(cursor).pos(), v),
            res matches Err(e) ==> e == VuControlActivityRecord::parse_err(old(cursor).data(), old(cursor).pos()),
    {
        let control_type = ControlType::parse(cursor)?;
        let control_time = TimeReal::parse(cursor)?;
        let control_card_number = FullCardNumber::parse(cursor)?;
        let download_period_begin_time = TimeReal::parse(cursor)?;
        let download_period_end_time = TimeReal::parse(cursor)?;
        Ok(VuControlActivityRecord { control_type, control_time, control_card_number, download_period_begin_time, download_period_end_time })
    }
}

impl Parse for VuControlActivityRecord {
    open spec fn parse_ok(d: Seq<u8>, p: int) -> bool {
        let p1 = ControlType::parse_end(d, p);
        let p2 = TimeReal::parse_end(d, p1);
        let p3 = FullCardNumber::parse_end(d, p2);
        let p4 = TimeReal::parse_end(d, p3);
        ControlType::parse_ok(d, p)
            && TimeReal::parse_ok(d, p1)
            && FullCardNumber::parse_ok(d, p2)
            && TimeReal::parse_ok(d, p3)
            && TimeReal::parse_ok(d, p4)
    }

    open spec fn parse_end(d: Seq<u8>, p: int) -> int {
        let p1 = ControlType::parse_end(d, p);
        let p2 = TimeReal::parse_end(d, p1);
        let p3 = FullCardNumber::parse_end(d, p2);
        let p4 = TimeReal::parse_end(d, p3);
        let p5 = TimeReal::parse_end(d, p4);
        if !ControlType::parse_ok(d, p) {
            p1
        } else if !TimeReal::parse_ok(d, p1) {
            p2
        } else if !FullCardNumber::parse_ok(d, p2) {
            p3
        } else if !TimeReal::parse_ok(d, p3) {
            p4
        } else if !TimeReal::parse_ok(d, p4) {
            p5
        } else {
            p5
        }
    }

    open spec fn parsed_as(d: Seq<u8>, p: int, v: VuControlActivityRecord) -> bool {
        let p1 = ControlType::parse_end(d, p);
        let p2 = TimeReal::parse_end(d, p1);
        let p3 = FullCardNumber::parse_end(d, p2);
        let p4 = TimeReal::parse_end(d, p3);
        ControlType::parsed_as(d, p, v.control_type)
            && TimeReal::parsed_as(d, p1, v.control_time)
            && FullCardNumber::parsed_as(d, p2, v.control_card_number)
            && TimeReal::parsed_as(d, p3, v.download_period_begin_time)
            && TimeReal::parsed_as(d, p4, v.download_period_end_time)
    }

    open spec fn parse_err(d: Seq<u8>, p: int) -> ParseError {
        let p1 = ControlType::parse_end(d, p);
        let p2 = TimeReal::parse_end(d, p1);
        let p3 = FullCardNumber::parse_end(d, p2);
        let p4 = TimeReal::parse_end(d, p3);
        if !ControlType::parse_ok(d, p) {
            ControlType::parse_err(d, p)
        } else if !TimeReal::parse_ok(d, p1) {
            TimeReal::parse_err(d, p1)
        } else if !FullCardNumber::parse_ok(d, p2) {
            FullCardNumber::parse_err(d, p2)
        } else if !TimeReal::parse_ok(d, p3) {
            TimeReal::parse_err(d, p3)
        } else if !TimeReal::parse_ok(d, p4) {
            TimeReal::parse_err(d, p4)
        } else {
            ParseError::InvalidValue
        }
    }

    fn parse(cursor: &mut Cursor) -> (res: Result<VuControlActivityRecord, ParseError>) {
        VuControlActivityRecord::parse(cursor)
    }
}

/// VuControlActivityData (appendix 2.186): a count and that many records.
#[derive(Debug)]
pub struct VuControlActivityData {
    pub no_of_controls: u8,
    pub vu_control_activity_records: Vec<VuControlActivityRecord>,
}

impl VuControlActivityData {
    /// Reads a `VuControlActivityData` at the reader's position.
    pub fn parse(cursor: &mut Cursor) -> (res: Result<VuControlActivityData, ParseError>)
        ensures
            final(cursor).data() == old(cursor).data(),
            old(cursor).pos() <= final(cursor).pos(),
            final(cursor).pos() == VuControlActivityData::parse_end(old(cursor).data(), old(cursor).pos()),
            res is Ok <==> VuControlActivityData::parse_ok(old(cursor).data(), old(cursor).pos()),
            res matches Ok(v) ==> VuControlActivityData::parsed_as(old(cursor).data(), old(cursor).pos(), v),
            res matches Err(e) ==> e == VuControlActivityData::parse_err(old(cursor).data(), old(cursor).pos()),
    {
        let no_of_controls = cursor.read_u8()?;
        let vu_control_activity_records = parse_counted::<VuControlActivityRecord>(cursor, no_of_controls as usize)?;
        Ok(VuControlActivityData { no_of_controls, vu_control_activity_records })
    }
}

impl Parse for VuControlActivityData {
    open spec fn parse_ok(d: Seq<u8>, p: int) -> bool {
        bytes_ok(d, p, 1) && leading_successes::<VuControlActivityRecord>(d, p + 1, d[p] as nat) == d[p]
    }

    open spec fn parse_end(d: Seq<u8>, p: int) -> int {
        if !bytes_ok(d, p, 1) {
            d.len() as int
        } else {
            counted_end::<VuControlActivityRecord>(d, p + 1, d[p] as nat)
        }
    }

    open spec fn parse_err(d: Seq<u8>, p: int) -> ParseError {
        if !bytes_ok(d, p, 1) {
            ParseError::UnexpectedEnd
        } else {
            counted_err::<VuControlActivityRecord>(d, p + 1, d[p] as nat)
        }
    }

    open spec fn parsed_as(d: Seq<u8>, p: int, v: VuControlActivityData) -> bool {
        v.no_of_controls == d[p] && values_at(
            d,
            attempt_positions::<VuControlActivityRecord>(d, p + 1, d[p] as nat),
            v.vu_control_activity_records@,
        )
    }

    fn parse(cursor: &mut Cursor) -> (res: Result<VuControlActivityData, ParseError>) {
        VuControlActivityData::parse(cursor)
    }
}

/// The overview block of a generation 1 vehicle unit download (TREP 01).
#[derive(Debug)]
pub struct VuOverviewBlock {
    pub member_state_certificate: Certificate,
    pub vu_certificate: Certificate,
    pub vehicle_identification_number: VehicleIdentificationNumber,
    pub vehicle_registration_identification: VehicleRegistrationIdentification,
    pub current_date_time: TimeReal,
    pub vu_downloadable_period: VuDownloadablePeriod,
    pub card_slots_status: CardSlotsStatus,
    pub vu_download_activity_data: VuDownloadActivityData,
    pub vu_company_locks_data: VuCompanyLocksData,
    pub vu_control_activity_data: VuControlActivityData,
    pub signature: Signature,
}

impl VuOverviewBlock {
    /// Reads a `VuOverviewBlock` at the reader's position.
    pub fn parse(cursor: &mut Cursor) -> (res: Result<VuOverviewBlock, ParseError>)
        ensures
            final(cursor).data() == old(cursor).data(),
            old(cursor).pos() <= final(cursor).pos(),
            final(cursor).pos() == VuOverviewBlock::parse_end(old(cursor).data(), old(cursor).pos()),
            res is Ok <==> VuOverviewBlock::parse_ok(old(cursor).data(), old(cursor).pos()),
            res matches Ok(v) ==> VuOverviewBlock::parsed_as(old(cursor).data(), old(cursor).pos(), v),
            res matches Err(e) ==> e == VuOverviewBlock::parse_err(old(cursor).data(), old(cursor).pos()),
    {
        let member_state_certificate = Certificate::parse(cursor)?;
        let vu_certificate = Certificate::parse(cursor)?;
        let vehicle_identification_number = VehicleIdentificationNumber::parse(cursor)?;
        let vehicle_registration_identification = VehicleRegistrationIdentification::parse(cursor)?;
        let current_date_time = TimeReal::parse(cursor)?;
        let vu_downloadable_period = VuDownloadablePeriod::parse(cursor)?;
        let card_slots_status = CardSlotsStatus::parse(cursor)?;
        let vu_download_activity_data = VuDownloadActivityData::parse(cursor)?;
        let vu_company_locks_data = VuCompanyLocksData::parse(cursor)?;
        let vu_control_activity_data = VuControlActivityData::parse(cursor)?;
        let signature = Signature::parse(cursor)?;
        Ok(VuOverviewBlock { member_state_certificate, vu_certificate, vehicle_identification_number, vehicle_registration_identification, current_date_time, vu_downloadable_period, card_slots_status, vu_download_activity_data, vu_company_locks_data, vu_control_activity_data, signature })
    }
}

impl Parse for VuOverviewBlock {
    closed spec fn parse_ok(d: Seq<u8>, p: int) -> bool {
        let p1 = Certificate::parse_end(d, p);
        let p2 = Certificate::parse_end(d, p1);
        let p3 = VehicleIdentificationNumber::parse_end(d, p2);
        let p4 = VehicleRegistrationIdentification::parse_end(d, p3);
        let p5 = TimeReal::parse_end(d, p4);
        let p6 = VuDownloadablePeriod::parse_end(d, p5);
        let p7 = CardSlotsStatus::parse_end(d, p6);
        let p8 = VuDownloadActivityData::parse_end(d, p7);
        let p9 = VuCompanyLocksData::parse_end(d, p8);
        let p10 = VuControlActivityData::parse_end(d, p9);
        Certificate::parse_ok(d, p)
            && Certificate::parse_ok(d, p1)
            && VehicleIdentificationNumber::parse_ok(d, p2)
            && VehicleRegistrationIdentification::parse_ok(d, p3)
            && TimeReal::parse_ok(d, p4)
            && VuDownloadablePeriod::parse_ok(d, p5)
            && CardSlotsStatus::parse_ok(d, p6)
            && VuDownloadActivityData::parse_ok(d, p7)
            && VuCompanyLocksData::parse_ok(d, p8)
            && VuControlActivityData::parse_ok(d, p9)
            && Signature::parse_ok(d, p10)
    }

    closed spec fn parse_end(d: Seq<u8>, p: int) -> int {
        let p1 = Certificate::parse_end(d, p);
        let p2 = Certificate::parse_end(d, p1);
        let p3 = VehicleIdentificationNumber::parse_end(d, p2);
        let p4 = VehicleRegistrationIdentification::parse_end(d, p3);
        let p5 = TimeReal::parse_end(d, p4);
        let p6 = VuDownloadablePeriod::parse_end(d, p5);
        let p7 = CardSlotsStatus::parse_end(d, p6);
        let p8 = VuDownloadActivityData::parse_end(d, p7);
        let p9 = VuCompanyLocksData::parse_end(d, p8);
        let p10 = VuControlActivityData::parse_end(d, p9);
        let p11 = Signature::parse_end(d, p10);
        if !Certificate::parse_ok(d, p) {
            p1
        } else if !Certificate::parse_ok(d, p1) {
            p2
        } else if !VehicleIdentificationNumber::parse_ok(d, p2) {
            p3
        } else if !VehicleRegistrationIdentification::parse_ok(d, p3) {
            p4
        } else if !TimeReal::parse_ok(d, p4) {
            p5
        } else if !VuDownloadablePeriod::parse_ok(d, p5) {
            p6
        } else if !CardSlotsStatus::parse_ok(d, p6) {
            p7
        } else if !VuDownloadActivityData::parse_ok(d, p7) {
            p8
        } else if !VuCompanyLocksData::parse_ok(d, p8) {
            p9
        } else if !VuControlActivityData::parse_ok(d, p9) {
            p10
        } else if !Signature::parse_ok(d, p10) {
            p11
        } else {
            p11
        }
    }

    closed spec fn parsed_as(d: Seq<u8>, p: int, v: VuOverviewBlock) -> bool {
        let p1 = Certificate::parse_end(d, p);
        let p2 = Certificate::parse_end(d, p1);
        let p3 = VehicleIdentificationNumber::parse_end(d, p2);
        let p4 = VehicleRegistrationIdentification::parse_end(d, p3);
        let p5 = TimeReal::parse_end(d, p4);
        let p6 = VuDownloadablePeriod::parse_end(d, p5);
        let p7 = CardSlotsStatus::parse_end(d, p6);
        let p8 = VuDownloadActivityData::parse_end(d, p7);
        let p9 = VuCompanyLocksData::parse_end(d, p8);
        let p10 = VuControlActivityData::parse_end(d, p9);
        Certificate::parsed_as(d, p, v.member_state_certificate)
            && Certificate::parsed_as(d, p1, v.vu_certificate)
            && VehicleIdentificationNumber::parsed_as(d, p2, v.vehicle_identification_number)
            && VehicleRegistrationIdentification::parsed_as(d, p3, v.vehicle_registration_identification)
            && TimeReal::parsed_as(d, p4, v.current_date_time)
            && VuDownloadablePeriod::parsed_as(d, p5, v.vu_downloadable_period)
            && CardSlotsStatus::parsed_as(d, p6, v.card_slots_status)
            && VuDownloadActivityData::parsed_as(d, p7, v.vu_download_activity_data)
            && VuCompanyLocksData::parsed_as(d, p8, v.vu_company_locks_data)
            && VuControlActivityData::parsed_as(d, p9, v.vu_control_activity_data)
            && Signature::parsed_as(d, p10, v.signature)
    }

    closed spec fn parse_err(d: Seq<u8>, p: int) -> ParseError {
        let p1 = Certificate::parse_end(d, p);
        let p2 = Certificate::parse_end(d, p1);
        let p3 = VehicleIdentificationNumber::parse_end(d, p2);
        let p4 = VehicleRegistrationIdentification::parse_end(d, p3);
        let p5 = TimeReal::parse_end(d, p4);
        let p6 = VuDownloadablePeriod::parse_end(d, p5);
        let p7 = CardSlotsStatus::parse_end(d, p6);
        let p8 = VuDownloadActivityData::parse_end(d, p7);
        let p9 = VuCompanyLocksData::parse_end(d, p8);
        let p10 = VuControlActivityData::parse_end(d, p9);
        if !Certificate::parse_ok(d, p) {
            Certificate::parse_err(d, p)
        } else if !Certificate::parse_ok(d, p1) {
            Certificate::parse_err(d, p1)
        } else if !VehicleIdentificationNumber::parse_ok(d, p2) {
            VehicleIdentificationNumber::parse_err(d, p2)
        } else if !VehicleRegistrationIdentification::parse_ok(d, p3) {
            VehicleRegistrationIdentification::parse_err(d, p3)
        } else if !TimeReal::parse_ok(d, p4) {
            TimeReal::parse_err(d, p4)
        } else if !VuDownloadablePeriod::parse_ok(d, p5) {
            VuDownloadablePeriod::parse_err(d, p5)
        } else if !CardSlotsStatus::parse_ok(d, p6) {
            CardSlotsStatus::parse_err(d, p6)
        } else if !VuDownloadActivityData::parse_ok(d, p7) {
            VuDownloadActivityData::parse_err(d, p7)
        } else if !VuCompanyLocksData::parse_ok(d, p8) {
            VuCompanyLocksData::parse_err(d, p8)
        } else if !VuControlActivityData::parse_ok(d, p9) {
            VuControlActivityData::parse_err(d, p9)
        } else if !Signature::parse_ok(d, p10) {
            Signature::parse_err(d, p10)
        } else {
            ParseError::InvalidValue
        }
    }

    fn parse(cursor: &mut Cursor) -> (res: Result<VuOverviewBlock, ParseError>) {
        VuOverviewBlock::parse(cursor)
    }
}

impl VuOverviewBlock {
    /// What reading a `VuOverviewBlock` at position `p` of `d` means, spelled out
    /// for readers outside this module.
    pub proof fn lemma_parse_spec(d: Seq<u8>, p: int, v: VuOverviewBlock)
        ensures
            VuOverviewBlock::parse_ok(d, p) == ({
                let p1 = Certificate::parse_end(d, p);
                let p2 = Certificate::parse_end(d, p1);
                let p3 = VehicleIdentificationNumber::parse_end(d, p2);
                let p4 = VehicleRegistrationIdentification::parse_end(d, p3);
                let p5 = TimeReal::parse_end(d, p4);
                let p6 = VuDownloadablePeriod::parse_end(d, p5);
                let p7 = CardSlotsStatus::parse_end(d, p6);
                let p8 = VuDownloadActivityData::parse_end(d, p7);
                let p9 = VuCompanyLocksData::parse_end(d, p8);
                let p10 = VuControlActivityData::parse_end(d, p9);
                Certificate::parse_ok(d, p)
            && Certificate::parse_ok(d, p1)
            && VehicleIdentificationNumber::parse_ok(d, p2)
            && VehicleRegistrationIdentification::parse_ok(d, p3)
            && TimeReal::parse_ok(d, p4)
            && VuDownloadablePeriod::parse_ok(d, p5)
            && CardSlotsStatus::parse_ok(d, p6)
            && VuDownloadActivityData::parse_ok(d, p7)
            && VuCompanyLocksData::parse_ok(d, p8)
            && VuControlActivityData::parse_ok(d, p9)
            && Signature::parse_ok(d, p10)
            }),
            VuOverviewBlock::parse_end(d, p) == ({
                let p1 = Certificate::parse_end(d, p);
                let p2 = Certificate::parse_end(d, p1);
                let p3 = VehicleIdentificationNumber::parse_end(d, p2);
                let p4 = VehicleRegistrationIdentification::parse_end(d, p3);
                let p5 = TimeReal::parse_end(d, p4);
                let p6 = VuDownloadablePeriod::parse_end(d, p5);
                let p7 = CardSlotsStatus::parse_end(d, p6);
                let p8 = VuDownloadActivityData::parse_end(d, p7);
                let p9 = VuCompanyLocksData::parse_end(d, p8);
                let p10 = VuControlActivityData::parse_end(d, p9);
                let p11 = Signature::parse_end(d, p10);
                if !Certificate::parse_ok(d, p) {
            p1
        } else if !Certificate::parse_ok(d, p1) {
            p2
        } else if !VehicleIdentificationNumber::parse_ok(d, p2) {
            p3
        } else if !VehicleRegistrationIdentification::parse_ok(d, p3) {
            p4
        } else if !TimeReal::parse_ok(d, p4) {
            p5
        } else if !VuDownloadablePeriod::parse_ok(d, p5) {
            p6
        } else if !CardSlotsStatus::parse_ok(d, p6) {
            p7
        } else if !VuDownloadActivityData::parse_ok(d, p7) {
            p8
        } else if !VuCompanyLocksData::parse_ok(d, p8) {
            p9
        } else if !VuControlActivityData::parse_ok(d, p9) {
            p10
        } else if !Signature::parse_ok(d, p10) {
            p11
        } else {
            p11
        }
            }),
            VuOverviewBlock::parsed_as(d, p, v) == ({
                let p1 = Certificate::parse_end(d, p);
                let p2 = Certificate::parse_end(d, p1);
                let p3 = VehicleIdentificationNumber::parse_end(d, p2);
                let p4 = VehicleRegistrationIdentification::parse_end(d, p3);
                let p5 = TimeReal::parse_end(d, p4);
                let p6 = VuDownloadablePeriod::parse_end(d, p5);
                let p7 = CardSlotsStatus::parse_end(d, p6);
                let p8 = VuDownloadActivityData::parse_end(d, p7);
                let p9 = VuCompanyLocksData::parse_end(d, p8);
                let p10 = VuControlActivityData::parse_end(d, p9);
                Certificate::parsed_as(d, p, v.member_state_certificate)
            && Certificate::parsed_as(d, p1, v.vu_certificate)
            && VehicleIdentificationNumber::parsed_as(d, p2, v.vehicle_identification_number)
            && VehicleRegistrationIdentification::parsed_as(d, p3, v.vehicle_registration_identification)
            && TimeReal::parsed_as(d, p4, v.current_date_time)
            && VuDownloadablePeriod::parsed_as(d, p5, v.vu_downloadable_period)
            && CardSlotsStatus::parsed_as(d, p6, v.card_slots_status)
            && VuDownloadActivityData::parsed_as(d, p7, v.vu_download_activity_data)
            && VuCompanyLocksData::parsed_as(d, p8, v.vu_company_locks_data)
            && VuControlActivityData::parsed_as(d, p9, v.vu_control_activity_data)
            && Signature::parsed_as(d, p10, v.signature)
            }),
            VuOverviewBlock::parse_err(d, p) == ({
                let p1 = Certificate::parse_end(d, p);
                let p2 = Certificate::parse_end(d, p1);
                let p3 = VehicleIdentificationNumber::parse_end(d, p2);
                let p4 = VehicleRegistrationIdentification::parse_end(d, p3);
                let p5 = TimeReal::parse_end(d, p4);
                let p6 = VuDownloadablePeriod::parse_end(d, p5);
                let p7 = CardSlotsStatus::parse_end(d, p6);
                let p8 = VuDownloadActivityData::parse_end(d, p7);
                let p9 = VuCompanyLocksData::parse_end(d, p8);
                let p10 = VuControlActivityData::parse_end(d, p9);
                if !Certificate::parse_ok(d, p) {
            Certificate::parse_err(d, p)
        } else if !Certificate::parse_ok(d, p1) {
            Certificate::parse_err(d, p1)
        } else if !VehicleIdentificationNumber::parse_ok(d, p2) {
            VehicleIdentificationNumber::parse_err(d, p2)
        } else if !VehicleRegistrationIdentification::parse_ok(d, p3) {
            VehicleRegistrationIdentification::parse_err(d, p3)
        } else if !TimeReal::parse_ok(d, p4) {
            TimeReal::parse_err(d, p4)
        } else if !VuDownloadablePeriod::parse_ok(d, p5) {
            VuDownloadablePeriod::parse_err(d, p5)
        } else if !CardSlotsStatus::parse_ok(d, p6) {
            CardSlotsStatus::parse_err(d, p6)
        } else if !VuDownloadActivityData::parse_ok(d, p7) {
            VuDownloadActivityData::parse_err(d, p7)
        } else if !VuCompanyLocksData::parse_ok(d, p8) {
            VuCompanyLocksData::parse_err(d, p8)
        } else if !VuControlActivityData::parse_ok(d, p9) {
            VuControlActivityData::parse_err(d, p9)
        } else if !Signature::parse_ok(d, p10) {
            Signature::parse_err(d, p10)
        } else {
            ParseError::InvalidValue
        }
            }),
    {
    }
}

/// VuCardIWRecord (appendix 2.177) as generation 1 defines it.
#[derive(Debug)]
pub struct VuCardIWRecord {
    pub card_holder_name: HolderName,
    pub full_card_number: FullCardNumber,
    pub card_expiry_date: TimeReal,
    pub card_insertion_time: TimeReal,
    pub vehicle_odometer_value_at_insertion: OdometerShort,
    pub card_slot_number: CardSlotNumber,
    pub card_withdrawal_time: Option<TimeReal>,
    pub vehicle_odometer_value_at_withdrawal: OdometerShort,
    pub previous_vehicle_info: PreviousVehicleInfo,
    pub manual_entry_flag: ManualInputFlag,
}

impl VuCardIWRecord {
    /// Reads a `VuCardIWRecord` at the reader's position.
    pub fn parse(cursor: &mut Cursor) -> (res: Result<VuCardIWRecord, ParseError>)
        ensures
            final(cursor).data() == old(cursor).data(),
            old(cursor).pos() <= final(cursor).pos(),
            final(cursor).pos() == VuCardIWRecord::parse_end(old(cursor).data(), old(cursor).pos()),
            res is Ok <==> VuCardIWRecord::parse_ok(old(cursor).data(), old(cursor).pos()),
            res matches Ok(v) ==> VuCardIWRecord::parsed_as(old(cursor).data(), old(cursor).pos(), v),
            res matches Err(e) ==> e == VuCardIWRecord::parse_err(old(cursor).data(), old(cursor).pos()),
    {
        let card_holder_name = HolderName::parse(cursor)?;
        let full_card_number = FullCardNumber::parse(cursor)?;
        let card_expiry_date = TimeReal::parse(cursor)?;
        let card_insertion_time = TimeReal::parse(cursor)?;
        let vehicle_odometer_value_at_insertion = OdometerShort::parse(cursor)?;
        let card_slot_number = CardSlotNumber::parse(cursor)?;
        let card_withdrawal_time = parse_optional::<TimeReal>(cursor);
        let vehicle_odometer_value_at_withdrawal = OdometerShort::parse(cursor)?;
        let previous_vehicle_info = PreviousVehicleInfo::parse(cursor)?;
        let manual_entry_flag = ManualInputFlag::parse(cursor)?;
        Ok(VuCardIWRecord { card_holder_name, full_card_number, card_expiry_date, card_insertion_time, vehicle_odometer_value_at_insertion, card_slot_number, card_withdrawal_time, vehicle_odometer_value_at_withdrawal, previous_vehicle_info, manual_entry_flag })
    }
}

impl Parse for VuCardIWRecord {
    open spec fn parse_ok(d: Seq<u8>, p: int) -> bool {
        let p1 = HolderName::parse_end(d, p);
        let p2 = FullCardNumber::parse_end(d, p1);
        let p3 = TimeReal::parse_end(d, p2);
        let p4 = TimeReal::parse_end(d, p3);
        let p5 = OdometerShort::parse_end(d, p4);
        let p6 = CardSlotNumber::parse_end(d, p5);
        let p7 = TimeReal::parse_end(d, p6);
        let p8 = OdometerShort::parse_end(d, p7);
        let p9 = PreviousVehicleInfo::parse_end(d, p8);
        HolderName::parse_ok(d, p)
            && FullCardNumber::parse_ok(d, p1)
            && TimeReal::parse_ok(d, p2)
            && TimeReal::parse_ok(d, p3)
            && OdometerShort::parse_ok(d, p4)
            && CardSlotNumber::parse_ok(d, p5)
            && OdometerShort::parse_ok(d, p7)
            && PreviousVehicleInfo::parse_ok(d, p8)
            && ManualInputFlag::parse_ok(d, p9)
    }

    open spec fn parse_end(d: Seq<u8>, p: int) -> int {
        let p1 = HolderName::parse_end(d, p);
        let p2 = FullCardNumber::parse_end(d, p1);
        let p3 = TimeReal::parse_end(d, p2);
        let p4 = TimeReal::parse_end(d, p3);
        let p5 = OdometerShort::parse_end(d, p4);
        let p6 = CardSlotNumber::parse_end(d, p5);
        let p7 = TimeReal::parse_end(d, p6);
        let p8 = OdometerShort::parse_end(d, p7);
        let p9 = PreviousVehicleInfo::parse_end(d, p8);
        let p10 = ManualInputFlag::parse_end(d, p9);
        if !HolderName::parse_ok(d, p) {
            p1
        } else if !FullCardNumber::parse_ok(d, p1) {
            p2
        } else if !TimeReal::parse_ok(d, p2) {
            p3
        } else if !TimeReal::parse_ok(d, p3) {
            p4
        } else if !OdometerShort::parse_ok(d, p4) {
            p5
        } else if !CardSlotNumber::parse_ok(d, p5) {
            p6
        } else if !OdometerShort::parse_ok(d, p7) {
            p8
        } else if !PreviousVehicleInfo::parse_ok(d, p8) {
            p9
        } else if !ManualInputFlag::parse_ok(d, p9) {
            p10
        } else {
            p10
        }
    }

    open spec fn parsed_as(d: Seq<u8>, p: int, v: VuCardIWRecord) -> bool {
        let p1 = HolderName::parse_end(d, p);
        let p2 = FullCardNumber::parse_end(d, p1);
        let p3 = TimeReal::parse_end(d, p2);
        let p4 = TimeReal::parse_end(d, p3);
        let p5 = OdometerShort::parse_end(d, p4);
        let p6 = CardSlotNumber::parse_end(d, p5);
        let p7 = TimeReal::parse_end(d, p6);
        let p8 = OdometerShort::parse_end(d, p7);
        let p9 = PreviousVehicleInfo::parse_end(d, p8);
        HolderName::parsed_as(d, p, v.card_holder_name)
            && FullCardNumber::parsed_as(d, p1, v.full_card_number)
            && TimeReal::parsed_as(d, p2, v.card_expiry_date)
            && TimeReal::parsed_as(d, p3, v.card_insertion_time)
            && OdometerShort::parsed_as(d, p4, v.vehicle_odometer_value_at_insertion)
            && CardSlotNumber::parsed_as(d, p5, v.card_slot_number)
            && optional_as::<TimeReal>(d, p6, v.card_withdrawal_time)
            && OdometerShort::parsed_as(d, p7, v.vehicle_odometer_value_at_withdrawal)
            && PreviousVehicleInfo::parsed_as(d, p8, v.previous_vehicle_info)
            && ManualInputFlag::parsed_as(d, p9, v.manual_entry_flag)
    }

    open spec fn parse_err(d: Seq<u8>, p: int) -> ParseError {
        let p1 = HolderName::parse_end(d, p);
        let p2 = FullCardNumber::parse_end(d, p1);
        let p3 = TimeReal::parse_end(d, p2);
        let p4 = TimeReal::parse_end(d, p3);
        let p5 = OdometerShort::parse_end(d, p4);
        let p6 = CardSlotNumber::parse_end(d, p5);
        let p7 = TimeReal::parse_end(d, p6);
        let p8 = OdometerShort::parse_end(d, p7);
        let p9 = PreviousVehicleInfo::parse_end(d, p8);
        if !HolderName::parse_ok(d, p) {
            HolderName::parse_err(d, p)
        } else if !FullCardNumber::parse_ok(d, p1) {
            FullCardNumber::parse_err(d, p1)
        } else if !TimeReal::parse_ok(d, p2) {
            TimeReal::parse_err(d, p2)
        } else if !TimeReal::parse_ok(d, p3) {
            TimeReal::parse_err(d, p3)
        } else if !OdometerShort::parse_ok(d, p4) {
            OdometerShort::parse_err(d, p4)
        } else if !CardSlotNumber::parse_ok(d, p5) {
            CardSlotNumber::parse_err(d, p5)
        } else if !OdometerShort::parse_ok(d, p7) {
            OdometerShort::parse_err(d, p7)
        } else if !PreviousVehicleInfo::parse_ok(d, p8) {
            PreviousVehicleInfo::parse_err(d, p8)
        } else if !ManualInputFlag::parse_ok(d, p9) {
            ManualInputFlag::parse_err(d, p9)
        } else {
            ParseError::InvalidValue
        }
    }

    fn parse(cursor: &mut Cursor) -> (res: Result<VuCardIWRecord, ParseError>) {
        VuCardIWRecord::parse(cursor)
    }
}

/// VuCardIWData (appendix 2.176): a count and that many records.
#[derive(Debug)]
pub struct VuCardIWData {
    pub no_of_iw_records: u16,
    pub vu_card_iw_records: Vec<VuCardIWRecord>,
}

impl VuCardIWData {
    /// Reads a `VuCardIWData` at the reader's position.
    pub fn parse(cursor: &mut Cursor) -> (res: Result<VuCardIWData, ParseError>)
        ensures
            final(cursor).data() == old(cursor).data(),
            old(cursor).pos() <= final(cursor).pos(),
            final(cursor).pos() == VuCardIWData::parse_end(old(cursor).data(), old(cursor).pos()),
            res is Ok <==> VuCardIWData::parse_ok(old(cursor).data(), old(cursor).pos()),
            res matches Ok(v) ==> VuCardIWData::parsed_as(old(cursor).data(), old(cursor).pos(), v),
            res matches Err(e) ==> e == VuCardIWData::parse_err(old(cursor).data(), old(cursor).pos()),
    {
        let no_of_iw_records = cursor.read_u16_be()?;
        let vu_card_iw_records = parse_counted::<VuCardIWRecord>(cursor, no_of_iw_records as usize)?;
        Ok(VuCardIWData { no_of_iw_records, vu_card_iw_records })
    }
}

impl Parse for VuCardIWData {
    open spec fn parse_ok(d: Seq<u8>, p: int) -> bool {
        bytes_ok(d, p, 2) && leading_successes::<VuCardIWRecord>(d, p + 2, be16(d, p) as nat) == be16(d, p)
    }

    open spec fn parse_end(d: Seq<u8>, p: int) -> int {
        if !bytes_ok(d, p, 2) {
            d.len() as int
        } else {
            counted_end::<VuCardIWRecord>(d, p + 2, be16(d, p) as nat)
        }
    }

    open spec fn parse_err(d: Seq<u8>, p: int) -> ParseError {
        if !bytes_ok(d, p, 2) {
            ParseError::UnexpectedEnd
        } else {
            counted_err::<VuCardIWRecord>(d, p + 2, be16(d, p) as nat)
        }
    }

    open spec fn parsed_as(d: Seq<u8>, p: int, v: VuCardIWData) -> bool {
        v.no_of_iw_records == be16(d, p) && values_at(
            d,
            attempt_positions::<VuCardIWRecord>(d, p + 2, be16(d, p) as nat),
            v.vu_card_iw_records@,
        )
    }

    fn parse(cursor: &mut Cursor) -> (res: Result<VuCardIWData, ParseError>) {
        VuCardIWData::parse(cursor)
    }
}

/// VuActivityDailyData (appendix 2.174): a count and that many activity changes.
#[derive(Debug)]
pub struct VuActivityDailyData {
    pub no_of_activity_changes: u16,
    pub activity_change_infos: Vec<ActivityChangeInfo>,
}

impl VuActivityDailyData {
    /// Reads a `VuActivityDailyData` at the reader's position.
    pub fn parse(cursor: &mut Cursor) -> (res: Result<VuActivityDailyData, ParseError>)
        ensures
            final(cursor).data() == old(cursor).data(),
            old(cursor).pos() <= final(cursor).pos(),
            final(cursor).pos() == VuActivityDailyData::parse_end(old(cursor).data(), old(cursor).pos()),
            res is Ok <==> VuActivityDailyData::parse_ok(old(cursor).data(), old(cursor).pos()),
            res matches Ok(v) ==> VuActivityDailyData::parsed_as(old(cursor).data(), old(cursor).pos(), v),
            res matches Err(e) ==> e == VuActivityDailyData::parse_err(old(cursor).data(), old(cursor).pos()),
    {
        let no_of_activity_changes = cursor.read_u16_be()?;
        let activity_change_infos = parse_counted::<ActivityChangeInfo>(cursor, no_of_activity_changes as usize)?;
        Ok(VuActivityDailyData { no_of_activity_changes, activity_change_infos })
    }
}

impl Parse for VuActivityDailyData {
    open spec fn parse_ok(d: Seq<u8>, p: int) -> bool {
        bytes_ok(d, p, 2) && leading_successes::<ActivityChangeInfo>(d, p + 2, be16(d, p) as nat) == be16(d, p)
    }

    open spec fn parse_end(d: Seq<u8>, p: int) -> int {
        if !bytes_ok(d, p, 2) {
            d.len() as int
        } else {
            counted_end::<ActivityChangeInfo>(d, p + 2, be16(d, p) as nat)
        }
    }

    open spec fn parse_err(d: Seq<u8>, p: int) -> ParseError {
        if !bytes_ok(d, p, 2) {
            ParseError::UnexpectedEnd
        } else {
            counted_err::<ActivityChangeInfo>(d, p + 2, be16(d, p) as nat)
        }
    }

    open spec fn parsed_as(d: Seq<u8>, p: int, v: VuActivityDailyData) -> bool {
        v.no_of_activity_changes == be16(d, p) && values_at(
            d,
            attempt_positions::<ActivityChangeInfo>(d, p + 2, be16(d, p) as nat),
            v.activity_change_infos@,
        )
    }

    fn parse(cursor: &mut Cursor) -> (res: Result<VuActivityDailyData, ParseError>) {
        VuActivityDailyData::parse(cursor)
    }
}

/// VuPlaceDailyWorkPeriodRecord (appendix 2.220) as generation 1 defines it.
#[derive(Debug)]
pub struct VuPlaceDailyWorkPeriodRecord {
    pub full_card_number: FullCardNumber,
    pub place_record: PlaceRecord,
}

impl VuPlaceDailyWorkPeriodRecord {
    /// Reads a `VuPlaceDailyWorkPeriodRecord` at the reader's position.
    pub fn parse(cursor: &mut Cursor) -> (res: Result<VuPlaceDailyWorkPeriodRecord, ParseError>)
        ensures
            final(cursor).data() == old(cursor).data(),
            old(cursor).pos() <= final(cursor).pos(),
            final(cursor).pos() == VuPlaceDailyWorkPeriodRecord::parse_end(old(cursor).data(), old(cursor).pos()),
            res is Ok <==> VuPlaceDailyWorkPeriodRecord::parse_ok(old(cursor).data(), old(cursor).pos()),
            res matches Ok(v) ==> VuPlaceDailyWorkPeriodRecord::parsed_as(old(cursor).data(), old(cursor).pos(), v),
            res matches Err(e) ==> e == VuPlaceDailyWorkPeriodRecord::parse_err(old(cursor).data(), old(cursor).pos()),
    {
        let full_card_number = FullCardNumber::parse(cursor)?;
        let place_record = PlaceRecord::parse(cursor)?;
        Ok(VuPlaceDailyWorkPeriodRecord { full_card_number, place_record })
    }
}

impl Parse for VuPlaceDailyWorkPeriodRecord {
    open spec fn parse_ok(d: Seq<u8>, p: int) -> bool {
        let p1 = FullCardNumber::parse_end(d, p);
        FullCardNumber::parse_ok(d, p)
            && PlaceRecord::parse_ok(d, p1)
    }

    open spec fn parse_end(d: Seq<u8>, p: int) -> int {
        let p1 = FullCardNumber::parse_end(d, p);
        let p2 = PlaceRecord::parse_end(d, p1);
        if !FullCardNumber::parse_ok(d, p) {
            p1
        } else if !PlaceRecord::parse_ok(d, p1) {
            p2
        } else {
            p2
        }
    }

    open spec fn parsed_as(d: Seq<u8>, p: int, v: VuPlaceDailyWorkPeriodRecord) -> bool {
        let p1 = FullCardNumber::parse_end(d, p);
        FullCardNumber::parsed_as(d, p, v.full_card_number)
            && PlaceRecord::parsed_as(d, p1, v.place_record)
    }

    open spec fn parse_err(d: Seq<u8>, p: int) -> ParseError {
        let p1 = FullCardNumber::parse_end(d, p);
        if !FullCardNumber::parse_ok(d, p) {
            FullCardNumber::parse_err(d, p)
        } else if !PlaceRecord::parse_ok(d, p1) {
            PlaceRecord::parse_err(d, p1)
        } else {
            ParseError::InvalidValue
        }
    }

    fn parse(cursor: &mut Cursor) -> (res: Result<VuPlaceDailyWorkPeriodRecord, ParseError>) {
        VuPlaceDailyWorkPeriodRecord::parse(cursor)
    }
}

/// VuPlaceDailyWorkPeriodData (appendix 2.219): a count and that many records.
#[derive(Debug)]
pub struct VuPlaceDailyWorkPeriodData {
    pub no_of_place_records: u8,
    pub vu_place_daily_work_period_records: Vec<VuPlaceDailyWorkPeriodRecord>,
}

impl VuPlaceDailyWorkPeriodData {
    /// Reads a `VuPlaceDailyWorkPeriodData` at the reader's position.
    pub fn parse(cursor: &mut Cursor) -> (res: Result<VuPlaceDailyWorkPeriodData, ParseError>)
        ensures
            final(cursor).data() == old(cursor).data(),
            old(cursor).pos() <= final(cursor).pos(),
            final(cursor).pos() == VuPlaceDailyWorkPeriodData::parse_end(old(cursor).data(), old(cursor).pos()),
            res is Ok <==> VuPlaceDailyWorkPeriodData::parse_ok(old(cursor).data(), old(cursor).pos()),
            res matches Ok(v) ==> VuPlaceDailyWorkPeriodData::parsed_as(old(cursor).data(), old(cursor).pos(), v),
            res matches Err(e) ==> e == VuPlaceDailyWorkPeriodData::parse_err(old(cursor).data(), old(cursor).pos()),
    {
        let no_of_place_records = cursor.read_u8()?;
        let vu_place_daily_work_period_records = parse_counted::<VuPlaceDailyWorkPeriodRecord>(cursor, no_of_place_records as usize)?;
        Ok(VuPlaceDailyWorkPeriodData { no_of_place_records, vu_place_daily_work_period_records })
    }
}

impl Parse for VuPlaceDailyWorkPeriodData {
    open spec fn parse_ok(d: Seq<u8>, p: int) -> bool {
        bytes_ok(d, p, 1) && leading_successes::<VuPlaceDailyWorkPeriodRecord>(d, p + 1, d[p] as nat) == d[p]
    }

    open spec fn parse_end(d: Seq<u8>, p: int) -> int {
        if !bytes_ok(d, p, 1) {
            d.len() as int
        } else {
            counted_end::<VuPlaceDailyWorkPeriodRecord>(d, p + 1, d[p] as nat)
        }
    }

    open spec fn parse_err(d: Seq<u8>, p: int) -> ParseError {
        if !bytes_ok(d, p, 1) {
            ParseError::UnexpectedEnd
        } else {
            counted_err::<VuPlaceDailyWorkPeriodRecord>(d, p + 1, d[p] as nat)
        }
    }

    open spec fn parsed_as(d: Seq<u8>, p: int, v: VuPlaceDailyWorkPeriodData) -> bool {
        v.no_of_place_records == d[p] && values_at(
            d,
            attempt_positions::<VuPlaceDailyWorkPeriodRecord>(d, p + 1, d[p] as nat),
            v.vu_place_daily_work_period_records@,
        )
    }

    fn parse(cursor: &mut Cursor) -> (res: Result<VuPlaceDailyWorkPeriodData, ParseError>) {
        VuPlaceDailyWorkPeriodData::parse(cursor)
    }
}

/// A specific condition as a generation 1 vehicle unit stores it.
#[derive(Debug)]
pub struct VuSpecificConditionRecord {
    pub entry_time: TimeReal,
    pub specific_condition_type: SpecificConditionType,
}

impl VuSpecificConditionRecord {
    /// Reads a `VuSpecificConditionRecord` at the reader's position.
    pub fn parse(cursor: &mut Cursor) -> (res: Result<VuSpecificConditionRecord, ParseError>)
        ensures
            final(cursor).data() == old(cursor).data(),
            old(cursor).pos() <= final(cursor).pos(),
            final(cursor).pos() == VuSpecificConditionRecord::parse_end(old(cursor).data(), old(cursor).pos()),
            res is Ok <==> VuSpecificConditionRecord::parse_ok(old(cursor).data(), old(cursor).pos()),
            res matches Ok(v) ==> VuSpecificConditionRecord::parsed_as(old(cursor).data(), old(cursor).pos(), v),
            res matches Err(e) ==> e == VuSpecificConditionRecord::parse_err(old(cursor).data(), old(cursor).pos()),
    {
        let entry_time = TimeReal::parse(cursor)?;
        let specific_condition_type = SpecificConditionType::parse(cursor)?;
        Ok(VuSpecificConditionRecord { entry_time, specific_condition_type })
    }
}

impl Parse for VuSpecificConditionRecord {
    open spec fn parse_ok(d: Seq<u8>, p: int) -> bool {
        let p1 = TimeReal::parse_end(d, p);
        TimeReal::parse_ok(d, p)
            && SpecificConditionType::parse_ok(d, p1)
    }

    open spec fn parse_end(d: Seq<u8>, p: int) -> int {
        let p1 = TimeReal::parse_end(d, p);
        let p2 = SpecificConditionType::parse_end(d, p1);
        if !TimeReal::parse_ok(d, p) {
            p1
        } else if !SpecificConditionType::parse_ok(d, p1) {
            p2
        } else {
            p2
        }
    }

    open spec fn parsed_as(d: Seq<u8>, p: int, v: VuSpecificConditionRecord) -> bool {
        let p1 = TimeReal::parse_end(d, p);
        TimeReal::parsed_as(d, p, v.entry_time)
            && SpecificConditionType::parsed_as(d, p1, v.specific_condition_type)
    }

    open spec fn parse_err(d: Seq<u8>, p: int) -> ParseError {
        let p1 = TimeReal::parse_end(d, p);
        if !TimeReal::parse_ok(d, p) {
            TimeReal::parse_err(d, p)
        } else if !SpecificConditionType::parse_ok(d, p1) {
            SpecificConditionType::parse_err(d, p1)
        } else {
            ParseError::InvalidValue
        }
    }

    fn parse(cursor: &mut Cursor) -> (res: Result<VuSpecificConditionRecord, ParseError>) {
        VuSpecificConditionRecord::parse(cursor)
    }
}

/// VuSpecificConditionData (appendix 2.227): a count and that many records.
#[derive(Debug)]
pub struct VuSpecificConditionData {
    pub no_of_specific_conditions: u16,
    pub specific_condition_records: Vec<SpecificConditionRecord>,
}

impl VuSpecificConditionData {
    /// Reads a `VuSpecificConditionData` at the reader's position.
    pub fn parse(cursor: &mut Cursor) -> (res: Result<VuSpecificConditionData, ParseError>)
        ensures
            final(cursor).data() == old(cursor).data(),
            old(cursor).pos() <= final(cursor).pos(),
            final(cursor).pos() == VuSpecificConditionData::parse_end(old(cursor).data(), old(cursor).pos()),
            res is Ok <==> VuSpecificConditionData::parse_ok(old(cursor).data(), old(cursor).pos()),
            res matches Ok(v) ==> VuSpecificConditionData::parsed_as(old(cursor).data(), old(cursor).pos(), v),
            res matches Err(e) ==> e == VuSpecificConditionData::parse_err(old(cursor).data(), old(cursor).pos()),
    {
        let no_of_specific_conditions = cursor.read_u16_be()?;
        let specific_condition_records = parse_counted::<SpecificConditionRecord>(cursor, no_of_specific_conditions as usize)?;
        Ok(VuSpecificConditionData { no_of_specific_conditions, specific_condition_records })
    }
}

impl Parse for VuSpecificConditionData {
    open spec fn parse_ok(d: Seq<u8>, p: int) -> bool {
        bytes_ok(d, p, 2) && leading_successes::<SpecificConditionRecord>(d, p + 2, be16(d, p) as nat) == be16(d, p)
    }

    open spec fn parse_end(d: Seq<u8>, p: int) -> int {
        if !bytes_ok(d, p, 2) {
            d.len() as int
        } else {
            counted_end::<SpecificConditionRecord>(d, p + 2, be16(d, p) as nat)
        }
    }

    open spec fn parse_err(d: Seq<u8>, p: int) -> ParseError {
        if !bytes_ok(d, p, 2) {
            ParseError::UnexpectedEnd
        } else {
            counted_err::<SpecificConditionRecord>(d, p + 2, be16(d, p) as nat)
        }
    }

    open spec fn parsed_as(d: Seq<u8>, p: int, v: VuSpecificConditionData) -> bool {
        v.no_of_specific_conditions == be16(d, p) && values_at(
            d,
            attempt_positions::<SpecificConditionRecord>(d, p + 2, be16(d, p) as nat),
            v.specific_condition_records@,
        )
    }

    fn parse(cursor: &mut Cursor) -> (res: Result<VuSpecificConditionData, ParseError>) {
        VuSpecificConditionData::parse(cursor)
    }
}

/// The activities block of a generation 1 vehicle unit download (TREP 02).
#[derive(Debug)]
pub struct VuActivitiesBlock {
    pub time_real: TimeReal,
    pub odometer_value_midnight: OdometerShort,
    pub vu_card_iw_data: VuCardIWData,
    pub vu_activity_daily_data: VuActivityDailyData,
    pub vu_place_daily_work_period_data: VuPlaceDailyWorkPeriodData,
    pub vu_specific_condition_data: VuSpecificConditionData,
    pub signature: Signature,
}

impl VuActivitiesBlock {
    /// Reads a `VuActivitiesBlock` at the reader's position.
    pub fn parse(cursor: &mut Cursor) -> (res: Result<VuActivitiesBlock, ParseError>)
        ensures
            final(cursor).data() == old(cursor).data(),
            old(cursor).pos() <= final(cursor).pos(),
            final(cursor).pos() == VuActivitiesBlock::parse_end(old(cursor).data(), old(cursor).pos()),
            res is Ok <==> VuActivitiesBlock::parse_ok(old(cursor).data(), old(cursor).pos()),
            res matches Ok(v) ==> VuActivitiesBlock::parsed_as(old(cursor).data(), old(cursor).pos(), v),
            res matches Err(e) ==> e == VuActivitiesBlock::parse_err(old(cursor).data(), old(cursor).pos()),
    {
        let time_real = TimeReal::parse(cursor)?;
        let odometer_value_midnight = OdometerShort::parse(cursor)?;
        let vu_card_iw_data = VuCardIWData::parse(cursor)?;
        let vu_activity_daily_data = VuActivityDailyData::parse(cursor)?;
        let vu_place_daily_work_period_data = VuPlaceDailyWorkPeriodData::parse(cursor)?;
        let vu_specific_condition_data = VuSpecificConditionData::parse(cursor)?;
        let signature = Signature::parse(cursor)?;
        Ok(VuActivitiesBlock { time_real, odometer_value_midnight, vu_card_iw_data, vu_activity_daily_data, vu_place_daily_work_period_data, vu_specific_condition_data, signature })
    }
}

impl Parse for VuActivitiesBlock {
    closed spec fn parse_ok(d: Seq<u8>, p: int) -> bool {
        let p1 = TimeReal::parse_end(d, p);
        let p2 = OdometerShort::parse_end(d, p1);
        let p3 = VuCardIWData::parse_end(d, p2);
        let p4 = VuActivityDailyData::parse_end(d, p3);
        let p5 = VuPlaceDailyWorkPeriodData::parse_end(d, p4);
        let p6 = VuSpecificConditionData::parse_end(d, p5);
        TimeReal::parse_ok(d, p)
            && OdometerShort::parse_ok(d, p1)
            && VuCardIWData::parse_ok(d, p2)
            && VuActivityDailyData::parse_ok(d, p3)
            && VuPlaceDailyWorkPeriodData::parse_ok(d, p4)
            && VuSpecificConditionData::parse_ok(d, p5)
            && Signature::parse_ok(d, p6)
    }

    closed spec fn parse_end(d: Seq<u8>, p: int) -> int {
        let p1 = TimeReal::parse_end(d, p);
        let p2 = OdometerShort::parse_end(d, p1);
        let p3 = VuCardIWData::parse_end(d, p2);
        let p4 = VuActivityDailyData::parse_end(d, p3);
        let p5 = VuPlaceDailyWorkPeriodData::parse_end(d, p4);
        let p6 = VuSpecificConditionData::parse_end(d, p5);
        let p7 = Signature::parse_end(d, p6);
        if !TimeReal::parse_ok(d, p) {
            p1
        } else if !OdometerShort::parse_ok(d, p1) {
            p2
        } else if !VuCardIWData::parse_ok(d, p2) {
            p3
        } else if !VuActivityDailyData::parse_ok(d, p3) {
            p4
        } else if !VuPlaceDailyWorkPeriodData::parse_ok(d, p4) {
            p5
        } else if !VuSpecificConditionData::parse_ok(d, p5) {
            p6
        } else if !Signature::parse_ok(d, p6) {
            p7
        } else {
            p7
        }
    }

    closed spec fn parsed_as(d: Seq<u8>, p: int, v: VuActivitiesBlock) -> bool {
        let p1 = TimeReal::parse_end(d, p);
        let p2 = OdometerShort::parse_end(d, p1);
        let p3 = VuCardIWData::parse_end(d, p2);
        let p4 = VuActivityDailyData::parse_end(d, p3);
        let p5 = VuPlaceDailyWorkPeriodData::parse_end(d, p4);
        let p6 = VuSpecificConditionData::parse_end(d, p5);
        TimeReal::parsed_as(d, p, v.time_real)
            && OdometerShort::parsed_as(d, p1, v.odometer_value_midnight)
            && VuCardIWData::parsed_as(d, p2, v.vu_card_iw_data)
            && VuActivityDailyData::parsed_as(d, p3, v.vu_activity_daily_data)
            && VuPlaceDailyWorkPeriodData::parsed_as(d, p4, v.vu_place_daily_work_period_data)
            && VuSpecificConditionData::parsed_as(d, p5, v.vu_specific_condition_data)
            && Signature::parsed_as(d, p6, v.signature)
    }

    closed spec fn parse_err(d: Seq<u8>, p: int) -> ParseError {
        let p1 = TimeReal::parse_end(d, p);
        let p2 = OdometerShort::parse_end(d, p1);
        let p3 = VuCardIWData::parse_end(d, p2);
        let p4 = VuActivityDailyData::parse_end(d, p3);
        let p5 = VuPlaceDailyWorkPeriodData::parse_end(d, p4);
        let p6 = VuSpecificConditionData::parse_end(d, p5);
        if !TimeReal::parse_ok(d, p) {
            TimeReal::parse_err(d, p)
        } else if !OdometerShort::parse_ok(d, p1) {
            OdometerShort::parse_err(d, p1)
        } else if !VuCardIWData::parse_ok(d, p2) {
            VuCardIWData::parse_err(d, p2)
        } else if !VuActivityDailyData::parse_ok(d, p3) {
            VuActivityDailyData::parse_err(d, p3)
        } else if !VuPlaceDailyWorkPeriodData::parse_ok(d, p4) {
            VuPlaceDailyWorkPeriodData::parse_err(d, p4)
        } else if !VuSpecificConditionData::parse_ok(d, p5) {
            VuSpecificConditionData::parse_err(d, p5)
        } else if !Signature::parse_ok(d, p6) {
            Signature::parse_err(d, p6)
        } else {
            ParseError::InvalidValue
        }
    }

    fn parse(cursor: &mut Cursor) -> (res: Result<VuActivitiesBlock, ParseError>) {
        VuActivitiesBlock::parse(cursor)
    }
}

impl VuActivitiesBlock {
    /// What reading a `VuActivitiesBlock` at position `p` of `d` means, spelled out
    /// for readers outside this module.
    pub proof fn lemma_parse_spec(d: Seq<u8>, p: int, v: VuActivitiesBlock)
        ensures
            VuActivitiesBlock::parse_ok(d, p) == ({
                let p1 = TimeReal::parse_end(d, p);
                let p2 = OdometerShort::parse_end(d, p1);
                let p3 = VuCardIWData::parse_end(d, p2);
                let p4 = VuActivityDailyData::parse_end(d, p3);
                let p5 = VuPlaceDailyWorkPeriodData::parse_end(d, p4);
                let p6 = VuSpecificConditionData::parse_end(d, p5);
                TimeReal::parse_ok(d, p)
            && OdometerShort::parse_ok(d, p1)
            && VuCardIWData::parse_ok(d, p2)
            && VuActivityDailyData::parse_ok(d, p3)
            && VuPlaceDailyWorkPeriodData::parse_ok(d, p4)
            && VuSpecificConditionData::parse_ok(d, p5)
            && Signature::parse_ok(d, p6)
            }),
            VuActivitiesBlock::parse_end(d, p) == ({
                let p1 = TimeReal::parse_end(d, p);
                let p2 = OdometerShort::parse_end(d, p1);
                let p3 = VuCardIWData::parse_end(d, p2);
                let p4 = VuActivityDailyData::parse_end(d, p3);
                let p5 = VuPlaceDailyWorkPeriodData::parse_end(d, p4);
                let p6 = VuSpecificConditionData::parse_end(d, p5);
                let p7 = Signature::parse_end(d, p6);
                if !TimeReal::parse_ok(d, p) {
            p1
        } else if !OdometerShort::parse_ok(d, p1) {
            p2
        } else if !VuCardIWData::parse_ok(d, p2) {
            p3
        } else if !VuActivityDailyData::parse_ok(d, p3) {
            p4
        } else if !VuPlaceDailyWorkPeriodData::parse_ok(d, p4) {
            p5
        } else if !VuSpecificConditionData::parse_ok(d, p5) {
            p6
        } else if !Signature::parse_ok(d, p6) {
            p7
        } else {
            p7
        }
            }),
            VuActivitiesBlock::parsed_as(d, p, v) == ({
                let p1 = TimeReal::parse_end(d, p);
                let p2 = OdometerShort::parse_end(d, p1);
                let p3 = VuCardIWData::parse_end(d, p2);
                let p4 = VuActivityDailyData::parse_end(d, p3);
                let p5 = VuPlaceDailyWorkPeriodData::parse_end(d, p4);
                let p6 = VuSpecificConditionData::parse_end(d, p5);
                TimeReal::parsed_as(d, p, v.time_real)
            && OdometerShort::parsed_as(d, p1, v.odometer_value_midnight)
            && VuCardIWData::parsed_as(d, p2, v.vu_card_iw_data)
            && VuActivityDailyData::parsed_as(d, p3, v.vu_activity_daily_data)
            && VuPlaceDailyWorkPeriodData::parsed_as(d, p4, v.vu_place_daily_work_period_data)
            && VuSpecificConditionData::parsed_as(d, p5, v.vu_specific_condition_data)
            && Signature::parsed_as(d, p6, v.signature)
            }),
            VuActivitiesBlock::parse_err(d, p) == ({
                let p1 = TimeReal::parse_end(d, p);
                let p2 = OdometerShort::parse_end(d, p1);
                let p3 = VuCardIWData::parse_end(d, p2);
                let p4 = VuActivityDailyData::parse_end(d, p3);
                let p5 = VuPlaceDailyWorkPeriodData::parse_end(d, p4);
                let p6 = VuSpecificConditionData::parse_end(d, p5);
                if !TimeReal::parse_ok(d, p) {
            TimeReal::parse_err(d, p)
        } else if !OdometerShort::parse_ok(d, p1) {
            OdometerShort::parse_err(d, p1)
        } else if !VuCardIWData::parse_ok(d, p2) {
            VuCardIWData::parse_err(d, p2)
        } else if !VuActivityDailyData::parse_ok(d, p3) {
            VuActivityDailyData::parse_err(d, p3)
        } else if !VuPlaceDailyWorkPeriodData::parse_ok(d, p4) {
            VuPlaceDailyWorkPeriodData::parse_err(d, p4)
        } else if !VuSpecificConditionData::parse_ok(d, p5) {
            VuSpecificConditionData::parse_err(d, p5)
        } else if !Signature::parse_ok(d, p6) {
            Signature::parse_err(d, p6)
        } else {
            ParseError::InvalidValue
        }
            }),
    {
    }
}

/// VuFaultRecord (appendix 2.201) as generation 1 defines it.
#[derive(Debug)]
pub struct VuFaultRecord {
    pub fault_type: EventFaultType,
    pub fault_record_purpose: EventFaultRecordPurpose,
    pub fault_begin_time: TimeReal,
    pub fault_end_time: TimeReal,
    pub card_number_driver_slot_begin: Option<FullCardNumber>,
    pub card_number_codriver_slot_begin: Option<FullCardNumber>,
    pub card_number_driver_slot_end: Option<FullCardNumber>,
    pub card_number_codriver_slot_end: Option<FullCardNumber>,
}

impl VuFaultRecord {
    /// Reads a `VuFaultRecord` at the reader's position.
    pub fn parse(cursor: &mut Cursor) -> (res: Result<VuFaultRecord, ParseError>)
        ensures
            final(cursor).data() == old(cursor).data(),
            old(cursor).pos() <= final(cursor).pos(),
            final(cursor).pos() == VuFaultRecord::parse_end(old(cursor).data(), old(cursor).pos()),
            res is Ok <==> VuFaultRecord::parse_ok(old(cursor).data(), old(cursor).pos()),
            res matches Ok(v) ==> VuFaultRecord::parsed_as(old(cursor).data(), old(cursor).pos(), v),
            res matches Err(e) ==> e == VuFaultRecord::parse_err(old(cursor).data(), old(cursor).pos()),
    {
        let fault_type = EventFaultType::parse(cursor)?;
        let fault_record_purpose = EventFaultRecordPurpose::parse(cursor)?;
        let fault_begin_time = TimeReal::parse(cursor)?;
        let fault_end_time = TimeReal::parse(cursor)?;
        let card_number_driver_slot_begin = parse_optional::<FullCardNumber>(cursor);
        let card_number_codriver_slot_begin = parse_optional::<FullCardNumber>(cursor);
        let card_number_driver_slot_end = parse_optional::<FullCardNumber>(cursor);
        let card_number_codriver_slot_end = parse_optional::<FullCardNumber>(cursor);
        Ok(VuFaultRecord { fault_type, fault_record_purpose, fault_begin_time, fault_end_time, card_number_driver_slot_begin, card_number_codriver_slot_begin, card_number_driver_slot_end, card_number_codriver_slot_end })
    }
}

impl Parse for VuFaultRecord {
    open spec fn parse_ok(d: Seq<u8>, p: int) -> bool {
        let p1 = EventFaultType::parse_end(d, p);
        let p2 = EventFaultRecordPurpose::parse_end(d, p1);
        let p3 = TimeReal::parse_end(d, p2);
        EventFaultType::parse_ok(d, p)
            && EventFaultRecordPurpose::parse_ok(d, p1)
            && TimeReal::parse_ok(d, p2)
            && TimeReal::parse_ok(d, p3)
    }

    open spec fn parse_end(d: Seq<u8>, p: int) -> int {
        let p1 = EventFaultType::parse_end(d, p);
        let p2 = EventFaultRecordPurpose::parse_end(d, p1);
        let p3 = TimeReal::parse_end(d, p2);
        let p4 = TimeReal::parse_end(d, p3);
        let p5 = FullCardNumber::parse_end(d, p4);
        let p6 = FullCardNumber::parse_end(d, p5);
        let p7 = FullCardNumber::parse_end(d, p6);
        let p8 = FullCardNumber::parse_end(d, p7);
        if !EventFaultType::parse_ok(d, p) {
            p1
        } else if !EventFaultRecordPurpose::parse_ok(d, p1) {
            p2
        } else if !TimeReal::parse_ok(d, p2) {
            p3
        } else if !TimeReal::parse_ok(d, p3) {
            p4
        } else {
            p8
        }
    }

    open spec fn parsed_as(d: Seq<u8>, p: int, v: VuFaultRecord) -> bool {
        let p1 = EventFaultType::parse_end(d, p);
        let p2 = EventFaultRecordPurpose::parse_end(d, p1);
        let p3 = TimeReal::parse_end(d, p2);
        let p4 = TimeReal::parse_end(d, p3);
        let p5 = FullCardNumber::parse_end(d, p4);
        let p6 = FullCardNumber::parse_end(d, p5);
        let p7 = FullCardNumber::parse_end(d, p6);
        EventFaultType::parsed_as(d, p, v.fault_type)
            && EventFaultRecordPurpose::parsed_as(d, p1, v.fault_record_purpose)
            && TimeReal::parsed_as(d, p2, v.fault_begin_time)
            && TimeReal::parsed_as(d, p3, v.fault_end_time)
            && optional_as::<FullCardNumber>(d, p4, v.card_number_driver_slot_begin)
            && optional_as::<FullCardNumber>(d, p5, v.card_number_codriver_slot_begin)
            && optional_as::<FullCardNumber>(d, p6, v.card_number_driver_slot_end)
            && optional_as::<FullCardNumber>(d, p7, v.card_number_codriver_slot_end)
    }

    open spec fn parse_err(d: Seq<u8>, p: int) -> ParseError {
        let p1 = EventFaultType::parse_end(d, p);
        let p2 = EventFaultRecordPurpose::parse_end(d, p1);
        let p3 = TimeReal::parse_end(d, p2);
        if !EventFaultType::parse_ok(d, p) {
            EventFaultType::parse_err(d, p)
        } else if !EventFaultRecordPurpose::parse_ok(d, p1) {
            EventFaultRecordPurpose::parse_err(d, p1)
        } else if !TimeReal::parse_ok(d, p2) {
            TimeReal::parse_err(d, p2)
        } else if !TimeReal::parse_ok(d, p3) {
            TimeReal::parse_err(d, p3)
        } else {
            ParseError::InvalidValue
        }
    }

    fn parse(cursor: &mut Cursor) -> (res: Result<VuFaultRecord, ParseError>) {
        VuFaultRecord::parse(cursor)
    }
}

/// VuFaultData (appendix 2.200): a count and that many records.
#[derive(Debug)]
pub struct VuFaultData {
    pub no_of_vu_fault_records: u8,
    pub vu_fault_records: Vec<VuFaultRecord>,
}

impl VuFaultData {
    /// Reads a `VuFaultData` at the reader's position.
    pub fn parse(cursor: &mut Cursor) -> (res: Result<VuFaultData, ParseError>)
        ensures
            final(cursor).data() == old(cursor).data(),
            old(cursor).pos() <= final(cursor).pos(),
            final(cursor).pos() == VuFaultData::parse_end(old(cursor).data(), old(cursor).pos()),
            res is Ok <==> VuFaultData::parse_ok(old(cursor).data(), old(cursor).pos()),
            res matches Ok(v) ==> VuFaultData::parsed_as(old(cursor).data(), old(cursor).pos(), v),
            res matches Err(e) ==> e == VuFaultData::parse_err(old(cursor).data(), old(cursor).pos()),
    {
        let no_of_vu_fault_records = cursor.read_u8()?;
        let vu_fault_records = parse_counted::<VuFaultRecord>(cursor, no_of_vu_fault_records as usize)?;
        Ok(VuFaultData { no_of_vu_fault_records, vu_fault_records })
    }
}

impl Parse for VuFaultData {
    open spec fn parse_ok(d: Seq<u8>, p: int) -> bool {
        bytes_ok(d, p, 1) && leading_successes::<VuFaultRecord>(d, p + 1, d[p] as nat) == d[p]
    }

    open spec fn parse_end(d: Seq<u8>, p: int) -> int {
        if !bytes_ok(d, p, 1) {
            d.len() as int
        } else {
            counted_end::<VuFaultRecord>(d, p + 1, d[p] as nat)
        }
    }

    open spec fn parse_err(d: Seq<u8>, p: int) -> ParseError {
        if !bytes_ok(d, p, 1) {
            ParseError::UnexpectedEnd
        } else {
            counted_err::<VuFaultRecord>(d, p + 1, d[p] as nat)
        }
    }

    open spec fn parsed_as(d: Seq<u8>, p: int, v: VuFaultData) -> bool {
        v.no_of_vu_fault_records == d[p] && values_at(
            d,
            attempt_positions::<VuFaultRecord>(d, p + 1, d[p] as nat),
            v.vu_fault_records@,
        )
    }

    fn parse(cursor: &mut Cursor) -> (res: Result<VuFaultData, ParseError>) {
        VuFaultData::parse(cursor)
    }
}

/// VuEventRecord (appendix 2.198) as generation 1 defines it.
#[derive(Debug)]
pub struct VuEventRecord {
    pub event_type: EventFaultType,
    pub event_record_purpose: EventFaultRecordPurpose,
    pub event_begin_time: TimeReal,
    pub event_end_time: TimeReal,
    pub card_number_driver_slot_begin: Option<FullCardNumber>,
    pub card_number_codriver_slot_begin: Option<FullCardNumber>,
    pub card_number_driver_slot_end: Option<FullCardNumber>,
    pub card_number_codriver_slot_end: Option<FullCardNumber>,
    pub similar_events_number: SimilarEventsNumber,
}

impl VuEventRecord {
    /// Reads a `VuEventRecord` at the reader's position.
    pub fn parse(cursor: &mut Cursor) -> (res: Result<VuEventRecord, ParseError>)
        ensures
            final(cursor).data() == old(cursor).data(),
            old(cursor).pos() <= final(cursor).pos(),
            final(cursor).pos() == VuEventRecord::parse_end(old(cursor).data(), old(cursor).pos()),
            res is Ok <==> VuEventRecord::parse_ok(old(cursor).data(), old(cursor).pos()),
            res matches Ok(v) ==> VuEventRecord::parsed_as(old(cursor).data(), old(cursor).pos(), v),
            res matches Err(e) ==> e == VuEventRecord::parse_err(old(cursor).data(), old(cursor).pos()),
    {
        let event_type = EventFaultType::parse(cursor)?;
        let event_record_purpose = EventFaultRecordPurpose::parse(cursor)?;
        let event_begin_time = TimeReal::parse(cursor)?;
        let event_end_time = TimeReal::parse(cursor)?;
        let card_number_driver_slot_begin = parse_optional::<FullCardNumber>(cursor);
        let card_number_codriver_slot_begin = parse_optional::<FullCardNumber>(cursor);
        let card_number_driver_slot_end = parse_optional::<FullCardNumber>(cursor);
        let card_number_codriver_slot_end = parse_optional::<FullCardNumber>(cursor);
        let similar_events_number = SimilarEventsNumber::parse(cursor)?;
        Ok(VuEventRecord { event_type, event_record_purpose, event_begin_time, event_end_time, card_number_driver_slot_begin, card_number_codriver_slot_begin, card_number_driver_slot_end, card_number_codriver_slot_end, similar_events_number })
    }
}

impl Parse for VuEventRecord {
    open spec fn parse_ok(d: Seq<u8>, p: int) -> bool {
        let p1 = EventFaultType::parse_end(d, p);
        let p2 = EventFaultRecordPurpose::parse_end(d, p1);
        let p3 = TimeReal::parse_end(d, p2);
        let p4 = TimeReal::parse_end(d, p3);
        let p5 = FullCardNumber::parse_end(d, p4);
        let p6 = FullCardNumber::parse_end(d, p5);
        let p7 = FullCardNumber::parse_end(d, p6);
        let p8 = FullCardNumber::parse_end(d, p7);
        EventFaultType::parse_ok(d, p)
            && EventFaultRecordPurpose::parse_ok(d, p1)
            && TimeReal::parse_ok(d, p2)
            && TimeReal::parse_ok(d, p3)
            && SimilarEventsNumber::parse_ok(d, p8)
    }

    open spec fn parse_end(d: Seq<u8>, p: int) -> int {
        let p1 = EventFaultType::parse_end(d, p);
        let p2 = EventFaultRecordPurpose::parse_end(d, p1);
        let p3 = TimeReal::parse_end(d, p2);
        let p4 = TimeReal::parse_end(d, p3);
        let p5 = FullCardNumber::parse_end(d, p4);
        let p6 = FullCardNumber::parse_end(d, p5);
        let p7 = FullCardNumber::parse_end(d, p6);
        let p8 = FullCardNumber::parse_end(d, p7);
        let p9 = SimilarEventsNumber::parse_end(d, p8);
        if !EventFaultType::parse_ok(d, p) {
            p1
        } else if !EventFaultRecordPurpose::parse_ok(d, p1) {
            p2
        } else if !TimeReal::parse_ok(d, p2) {
            p3
        } else if !TimeReal::parse_ok(d, p3) {
            p4
        } else if !SimilarEventsNumber::parse_ok(d, p8) {
            p9
        } else {
            p9
        }
    }

    open spec fn parsed_as(d: Seq<u8>, p: int, v: VuEventRecord) -> bool {
        let p1 = EventFaultType::parse_end(d, p);
        let p2 = EventFaultRecordPurpose::parse_end(d, p1);
        let p3 = TimeReal::parse_end(d, p2);
        let p4 = TimeReal::parse_end(d, p3);
        let p5 = FullCardNumber::parse_end(d, p4);
        let p6 = FullCardNumber::parse_end(d, p5);
        let p7 = FullCardNumber::parse_end(d, p6);
        let p8 = FullCardNumber::parse_end(d, p7);
        EventFaultType::parsed_as(d, p, v.event_type)
            && EventFaultRecordPurpose::parsed_as(d, p1, v.event_record_purpose)
            && TimeReal::parsed_as(d, p2, v.event_begin_time)
            && TimeReal::parsed_as(d, p3, v.event_end_time)
            && optional_as::<FullCardNumber>(d, p4, v.card_number_driver_slot_begin)
            && optional_as::<FullCardNumber>(d, p5, v.card_number_codriver_slot_begin)
            && optional_as::<FullCardNumber>(d, p6, v.card_number_driver_slot_end)
            && optional_as::<FullCardNumber>(d, p7, v.card_number_codriver_slot_end)
            && SimilarEventsNumber::parsed_as(d, p8, v.similar_events_number)
    }

    open spec fn parse_err(d: Seq<u8>, p: int) -> ParseError {
        let p1 = EventFaultType::parse_end(d, p);
        let p2 = EventFaultRecordPurpose::parse_end(d, p1);
        let p3 = TimeReal::parse_end(d, p2);
        let p4 = TimeReal::parse_end(d, p3);
        let p5 = FullCardNumber::parse_end(d, p4);
        let p6 = FullCardNumber::parse_end(d, p5);
        let p7 = FullCardNumber::parse_end(d, p6);
        let p8 = FullCardNumber::parse_end(d, p7);
        if !EventFaultType::parse_ok(d, p) {
            EventFaultType::parse_err(d, p)
        } else if !EventFaultRecordPurpose::parse_ok(d, p1) {
            EventFaultRecordPurpose::parse_err(d, p1)
        } else if !TimeReal::parse_ok(d, p2) {
            TimeReal::parse_err(d, p2)
        } else if !TimeReal::parse_ok(d, p3) {
            TimeReal::parse_err(d, p3)
        } else if !SimilarEventsNumber::parse_ok(d, p8) {
            SimilarEventsNumber::parse_err(d, p8)
        } else {
            ParseError::InvalidValue
        }
    }

    fn parse(cursor: &mut Cursor) -> (res: Result<VuEventRecord, ParseError>) {
        VuEventRecord::parse(cursor)
    }
}

/// VuEventData (appendix 2.197): a count and that many records.
#[derive(Debug)]
pub struct VuEventData {
    pub no_of_vu_event_records: u8,
    pub vu_event_records: Vec<VuEventRecord>,
}

impl VuEventData {
    /// Reads a `VuEventData` at the reader's position.
    pub fn parse(cursor: &mut Cursor) -> (res: Result<VuEventData, ParseError>)
        ensures
            final(cursor).data() == old(cursor).data(),
            old(cursor).pos() <= final(cursor).pos(),
            final(cursor).pos() == VuEventData::parse_end(old(cursor).data(), old(cursor).pos()),
            res is Ok <==> VuEventData::parse_ok(old(cursor).data(), old(cursor).pos()),
            res matches Ok(v) ==> VuEventData::parsed_as(old(cursor).data(), old(cursor).pos(), v),
            res matches Err(e) ==> e == VuEventData::parse_err(old(cursor).data(), old(cursor).pos()),
    {
        let no_of_vu_event_records = cursor.read_u8()?;
        let vu_event_records = parse_counted::<VuEventRecord>(cursor, no_of_vu_event_records as usize)?;
        Ok(VuEventData { no_of_vu_event_records, vu_event_records })
    }
}

impl Parse for VuEventData {
    open spec fn parse_ok(d: Seq<u8>, p: int) -> bool {
        bytes_ok(d, p, 1) && leading_successes::<VuEventRecord>(d, p + 1, d[p] as nat) == d[p]
    }

    open spec fn parse_end(d: Seq<u8>, p: int) -> int {
        if !bytes_ok(d, p, 1) {
            d.len() as int
        } else {
            counted_end::<VuEventRecord>(d, p + 1, d[p] as nat)
        }
    }

    open spec fn parse_err(d: Seq<u8>, p: int) -> ParseError {
        if !bytes_ok(d, p, 1) {
            ParseError::UnexpectedEnd
        } else {
            counted_err::<VuEventRecord>(d, p + 1, d[p] as nat)
        }
    }

    open spec fn parsed_as(d: Seq<u8>, p: int, v: VuEventData) -> bool {
        v.no_of_vu_event_records == d[p] && values_at(
            d,
            attempt_positions::<VuEventRecord>(d, p + 1, d[p] as nat),
            v.vu_event_records@,
        )
    }

    fn parse(cursor: &mut Cursor) -> (res: Result<VuEventData, ParseError>) {
        VuEventData::parse(cursor)
    }
}

/// VuOverSpeedingControlData (appendix 2.212) as generation 1 defines it.
#[derive(Debug)]
pub struct VuOverSpeedingControlData {
    pub last_overspeed_control_time: TimeReal,
    pub first_overspeed_since: TimeReal,
    pub number_of_overspeed_since: OverspeedNumber,
}

impl VuOverSpeedingControlData {
    /// Reads a `VuOverSpeedingControlData` at the reader's position.
    pub fn parse(cursor: &mut Cursor) -> (res: Result<VuOverSpeedingControlData, ParseError>)
        ensures
            final(cursor).data() == old(cursor).data(),
            old(cursor).pos() <= final(cursor).pos(),
            final(cursor).pos() == VuOverSpeedingControlData::parse_end(old(cursor).data(), old(cursor).pos()),
            res is Ok <==> VuOverSpeedingControlData::parse_ok(old(cursor).data(), old(cursor).pos()),
            res matches Ok(v) ==> VuOverSpeedingControlData::parsed_as(old(cursor).data(), old(cursor).pos(), v),
            res matches Err(e) ==> e == VuOverSpeedingControlData::parse_err(old(cursor).data(), old(cursor).pos()),
    {
        let last_overspeed_control_time = TimeReal::parse(cursor)?;
        let first_overspeed_since = TimeReal::parse(cursor)?;
        let number_of_overspeed_since = OverspeedNumber::parse(cursor)?;
        Ok(VuOverSpeedingControlData { last_overspeed_control_time, first_overspeed_since, number_of_overspeed_since })
    }
}

impl Parse for VuOverSpeedingControlData {
    open spec fn parse_ok(d: Seq<u8>, p: int) -> bool {
        let p1 = TimeReal::parse_end(d, p);
        let p2 = TimeReal::parse_end(d, p1);
        TimeReal::parse_ok(d, p)
            && TimeReal::parse_ok(d, p1)
            && OverspeedNumber::parse_ok(d, p2)
    }

    open spec fn parse_end(d: Seq<u8>, p: int) -> int {
        let p1 = TimeReal::parse_end(d, p);
        let p2 = TimeReal::parse_end(d, p1);
        let p3 = OverspeedNumber::parse_end(d, p2);
        if !TimeReal::parse_ok(d, p) {
            p1
        } else if !TimeReal::parse_ok(d, p1) {
            p2
        } else if !OverspeedNumber::parse_ok(d, p2) {
            p3
        } else {
            p3
        }
    }

    open spec fn parsed_as(d: Seq<u8>, p: int, v: VuOverSpeedingControlData) -> bool {
        let p1 = TimeReal::parse_end(d, p);
        let p2 = TimeReal::parse_end(d, p1);
        TimeReal::parsed_as(d, p, v.last_overspeed_control_time)
            && TimeReal::parsed_as(d, p1, v.first_overspeed_since)
            && OverspeedNumber::parsed_as(d, p2, v.number_of_overspeed_since)
    }

    open spec fn parse_err(d: Seq<u8>, p: int) -> ParseError {
        let p1 = TimeReal::parse_end(d, p);
        let p2 = TimeReal::parse_end(d, p1);
        if !TimeReal::parse_ok(d, p) {
            TimeReal::parse_err(d, p)
        } else if !TimeReal::parse_ok(d, p1) {
            TimeReal::parse_err(d, p1)
        } else if !OverspeedNumber::parse_ok(d, p2) {
            OverspeedNumber::parse_err(d, p2)
        } else {
            ParseError::InvalidValue
        }
    }

    fn parse(cursor: &mut Cursor) -> (res: Result<VuOverSpeedingControlData, ParseError>) {
        VuOverSpeedingControlData::parse(cursor)
    }
}

/// VuOverSpeedingEventRecord (appendix 2.215) as generation 1 defines it.
#[derive(Debug)]
pub struct VuOverSpeedingEventRecord {
    pub event_type: EventFaultType,
    pub event_record_purpose: EventFaultRecordPurpose,
    pub event_begin_time: TimeReal,
    pub event_end_time: TimeReal,
    pub max_speed_value: SpeedMax,
    pub average_speed_value: SpeedAverage,
    pub card_number_driver_slot: FullCardNumber,
    pub similar_events_number: SimilarEventsNumber,
}

impl VuOverSpeedingEventRecord {
    /// Reads a `VuOverSpeedingEventRecord` at the reader's position.
    pub fn parse(cursor: &mut Cursor) -> (res: Result<VuOverSpeedingEventRecord, ParseError>)
        ensures
            final(cursor).data() == old(cursor).data(),
            old(cursor).pos() <= final(cursor).pos(),
            final(cursor).pos() == VuOverSpeedingEventRecord::parse_end(old(cursor).data(), old(cursor).pos()),
            res is Ok <==> VuOverSpeedingEventRecord::parse_ok(old(cursor).data(), old(cursor).pos()),
            res matches Ok(v) ==> VuOverSpeedingEventRecord::parsed_as(old(cursor).data(), old(cursor).pos(), v),
            res matches Err(e) ==> e == VuOverSpeedingEventRecord::parse_err(old(cursor).data(), old(cursor).pos()),
    {
        let event_type = EventFaultType::parse(cursor)?;
        let event_record_purpose = EventFaultRecordPurpose::parse(cursor)?;
        let event_begin_time = TimeReal::parse(cursor)?;
        let event_end_time = TimeReal::parse(cursor)?;
        let max_speed_value = SpeedMax::parse(cursor)?;
        let average_speed_value = SpeedAverage::parse(cursor)?;
        let card_number_driver_slot = FullCardNumber::parse(cursor)?;
        let similar_events_number = SimilarEventsNumber::parse(cursor)?;
        Ok(VuOverSpeedingEventRecord { event_type, event_record_purpose, event_begin_time, event_end_time, max_speed_value, average_speed_value, card_number_driver_slot, similar_events_number })
    }
}

impl Parse for VuOverSpeedingEventRecord {
    open spec fn parse_ok(d: Seq<u8>, p: int) -> bool {
        let p1 = EventFaultType::parse_end(d, p);
        let p2 = EventFaultRecordPurpose::parse_end(d, p1);
        let p3 = TimeReal::parse_end(d, p2);
        let p4 = TimeReal::parse_end(d, p3);
        let p5 = SpeedMax::parse_end(d, p4);
        let p6 = SpeedAverage::parse_end(d, p5);
        let p7 = FullCardNumber::parse_end(d, p6);
        EventFaultType::parse_ok(d, p)
            && EventFaultRecordPurpose::parse_ok(d, p1)
            && TimeReal::parse_ok(d, p2)
            && TimeReal::parse_ok(d, p3)
            && SpeedMax::parse_ok(d, p4)
            && SpeedAverage::parse_ok(d, p5)
            && FullCardNumber::parse_ok(d, p6)
            && SimilarEventsNumber::parse_ok(d, p7)
    }

    open spec fn parse_end(d: Seq<u8>, p: int) -> int {
        let p1 = EventFaultType::parse_end(d, p);
        let p2 = EventFaultRecordPurpose::parse_end(d, p1);
        let p3 = TimeReal::parse_end(d, p2);
        let p4 = TimeReal::parse_end(d, p3);
        let p5 = SpeedMax::parse_end(d, p4);
        let p6 = SpeedAverage::parse_end(d, p5);
        let p7 = FullCardNumber::parse_end(d, p6);
        let p8 = SimilarEventsNumber::parse_end(d, p7);
        if !EventFaultType::parse_ok(d, p) {
            p1
        } else if !EventFaultRecordPurpose::parse_ok(d, p1) {
            p2
        } else if !TimeReal::parse_ok(d, p2) {
            p3
        } else if !TimeReal::parse_ok(d, p3) {
            p4
        } else if !SpeedMax::parse_ok(d, p4) {
            p5
        } else if !SpeedAverage::parse_ok(d, p5) {
            p6
        } else if !FullCardNumber::parse_ok(d, p6) {
            p7
        } else if !SimilarEventsNumber::parse_ok(d, p7) {
            p8
        } else {
            p8
        }
    }

    open spec fn parsed_as(d: Seq<u8>, p: int, v: VuOverSpeedingEventRecord) -> bool {
        let p1 = EventFaultType::parse_end(d, p);
        let p2 = EventFaultRecordPurpose::parse_end(d, p1);
        let p3 = TimeReal::parse_end(d, p2);
        let p4 = TimeReal::parse_end(d, p3);
        let p5 = SpeedMax::parse_end(d, p4);
        let p6 = SpeedAverage::parse_end(d, p5);
        let p7 = FullCardNumber::parse_end(d, p6);
        EventFaultType::parsed_as(d, p, v.event_type)
            && EventFaultRecordPurpose::parsed_as(d, p1, v.event_record_purpose)
            && TimeReal::parsed_as(d, p2, v.event_begin_time)
            && TimeReal::parsed_as(d, p3, v.event_end_time)
            && SpeedMax::parsed_as(d, p4, v.max_speed_value)
            && SpeedAverage::parsed_as(d, p5, v.average_speed_value)
            && FullCardNumber::parsed_as(d, p6, v.card_number_driver_slot)
            && SimilarEventsNumber::parsed_as(d, p7, v.similar_events_number)
    }

    open spec fn parse_err(d: Seq<u8>, p: int) -> ParseError {
        let p1 = EventFaultType::parse_end(d, p);
        let p2 = EventFaultRecordPurpose::parse_end(d, p1);
        let p3 = TimeReal::parse_end(d, p2);
        let p4 = TimeReal::parse_end(d, p3);
        let p5 = SpeedMax::parse_end(d, p4);
        let p6 = SpeedAverage::parse_end(d, p5);
        let p7 = FullCardNumber::parse_end(d, p6);
        if !EventFaultType::parse_ok(d, p) {
            EventFaultType::parse_err(d, p)
        } else if !EventFaultRecordPurpose::parse_ok(d, p1) {
            EventFaultRecordPurpose::parse_err(d, p1)
        } else if !TimeReal::parse_ok(d, p2) {
            TimeReal::parse_err(d, p2)
        } else if !TimeReal::parse_ok(d, p3) {
            TimeReal::parse_err(d, p3)
        } else if !SpeedMax::parse_ok(d, p4) {
            SpeedMax::parse_err(d, p4)
        } else if !SpeedAverage::parse_ok(d, p5) {
            SpeedAverage::parse_err(d, p5)
        } else if !FullCardNumber::parse_ok(d, p6) {
            FullCardNumber::parse_err(d, p6)
        } else if !SimilarEventsNumber::parse_ok(d, p7) {
            SimilarEventsNumber::parse_err(d, p7)
        } else {
            ParseError::InvalidValue
        }
    }

    fn parse(cursor: &mut Cursor) -> (res: Result<VuOverSpeedingEventRecord, ParseError>) {
        VuOverSpeedingEventRecord::parse(cursor)
    }
}

/// VuOverSpeedingEventData (appendix 2.214): a count and that many records.
#[derive(Debug)]
pub struct VuOverSpeedingEventData {
    pub no_of_vu_over_speeding_events: u8,
    pub vu_over_speeding_event_records: Vec<VuOverSpeedingEventRecord>,
}

impl VuOverSpeedingEventData {
    /// Reads a `VuOverSpeedingEventData` at the reader's position.
    pub fn parse(cursor: &mut Cursor) -> (res: Result<VuOverSpeedingEventData, ParseError>)
        ensures
            final(cursor).data() == old(cursor).data(),
            old(cursor).pos() <= final(cursor).pos(),
            final(cursor).pos() == VuOverSpeedingEventData::parse_end(old(cursor).data(), old(cursor).pos()),
            res is Ok <==> VuOverSpeedingEventData::parse_ok(old(cursor).data(), old(cursor).pos()),
            res matches Ok(v) ==> VuOverSpeedingEventData::parsed_as(old(cursor).data(), old(cursor).pos(), v),
            res matches Err(e) ==> e == VuOverSpeedingEventData::parse_err(old(cursor).data(), old(cursor).pos()),
    {
        let no_of_vu_over_speeding_events = cursor.read_u8()?;
        let vu_over_speeding_event_records = parse_counted::<VuOverSpeedingEventRecord>(cursor, no_of_vu_over_speeding_events as usize)?;
        Ok(VuOverSpeedingEventData { no_of_vu_over_speeding_events, vu_over_speeding_event_records })
    }
}

impl Parse for VuOverSpeedingEventData {
    open spec fn parse_ok(d: Seq<u8>, p: int) -> bool {
        bytes_ok(d, p, 1) && leading_successes::<VuOverSpeedingEventRecord>(d, p + 1, d[p] as nat) == d[p]
    }

    open spec fn parse_end(d: Seq<u8>, p: int) -> int {
        if !bytes_ok(d, p, 1) {
            d.len() as int
        } else {
            counted_end::<VuOverSpeedingEventRecord>(d, p + 1, d[p] as nat)
        }
    }

    open spec fn parse_err(d: Seq<u8>, p: int) -> ParseError {
        if !bytes_ok(d, p, 1) {
            ParseError::UnexpectedEnd
        } else {
            counted_err::<VuOverSpeedingEventRecord>(d, p + 1, d[p] as nat)
        }
    }

    open spec fn parsed_as(d: Seq<u8>, p: int, v: VuOverSpeedingEventData) -> bool {
        v.no_of_vu_over_speeding_events == d[p] && values_at(
            d,
            attempt_positions::<VuOverSpeedingEventRecord>(d, p + 1, d[p] as nat),
            v.vu_over_speeding_event_records@,
        )
    }

    fn parse(cursor: &mut Cursor) -> (res: Result<VuOverSpeedingEventData, ParseError>) {
        VuOverSpeedingEventData::parse(cursor)
    }
}

/// VuTimeAdjustmentRecord (appendix 2.232) as generation 1 defines it.
#[derive(Debug)]
pub struct VuTimeAdjustmentRecord {
    pub old_time_value: TimeReal,
    pub new_time_value: TimeReal,
    pub workshop_name: Name,
    pub workshop_address: Address,
    pub workshop_card_number: FullCardNumber,
}

impl VuTimeAdjustmentRecord {
    /// Reads a `VuTimeAdjustmentRecord` at the reader's position.
    pub fn parse(cursor: &mut Cursor) -> (res: Result<VuTimeAdjustmentRecord, ParseError>)
        ensures
            final(cursor).data() == old(cursor).data(),
            old(cursor).pos() <= final(cursor).pos(),
            final(cursor).pos() == VuTimeAdjustmentRecord::parse_end(old(cursor).data(), old(cursor).pos()),
            res is Ok <==> VuTimeAdjustmentRecord::parse_ok(old(cursor).data(), old(cursor).pos()),
            res matches Ok(v) ==> VuTimeAdjustmentRecord::parsed_as(old(cursor).data(), old(cursor).pos(), v),
            res matches Err(e) ==> e == VuTimeAdjustmentRecord::parse_err(old(cursor).data(), old(cursor).pos()),
    {
        let old_time_value = TimeReal::parse(cursor)?;
        let new_time_value = TimeReal::parse(cursor)?;
        let workshop_name = Name::parse(cursor)?;
        let workshop_address = Address::parse(cursor)?;
        let workshop_card_number = FullCardNumber::parse(cursor)?;
        Ok(VuTimeAdjustmentRecord { old_time_value, new_time_value, workshop_name, workshop_address, workshop_card_number })
    }
}

impl Parse for VuTimeAdjustmentRecord {
    open spec fn parse_ok(d: Seq<u8>, p: int) -> bool {
        let p1 = TimeReal::parse_end(d, p);
        let p2 = TimeReal::parse_end(d, p1);
        let p3 = Name::parse_end(d, p2);
        let p4 = Address::parse_end(d, p3);
        TimeReal::parse_ok(d, p)
            && TimeReal::parse_ok(d, p1)
            && Name::parse_ok(d, p2)
            && Address::parse_ok(d, p3)
            && FullCardNumber::parse_ok(d, p4)
    }

    open spec fn parse_end(d: Seq<u8>, p: int) -> int {
        let p1 = TimeReal::parse_end(d, p);
        let p2 = TimeReal::parse_end(d, p1);
        let p3 = Name::parse_end(d, p2);
        let p4 = Address::parse_end(d, p3);
        let p5 = FullCardNumber::parse_end(d, p4);
        if !TimeReal::parse_ok(d, p) {
            p1
        } else if !TimeReal::parse_ok(d, p1) {
            p2
        } else if !Name::parse_ok(d, p2) {
            p3
        } else if !Address::parse_ok(d, p3) {
            p4
        } else if !FullCardNumber::parse_ok(d, p4) {
            p5
        } else {
            p5
        }
    }

    open spec fn parsed_as(d: Seq<u8>, p: int, v: VuTimeAdjustmentRecord) -> bool {
        let p1 = TimeReal::parse_end(d, p);
        let p2 = TimeReal::parse_end(d, p1);
        let p3 = Name::parse_end(d, p2);
        let p4 = Address::parse_end(d, p3);
        TimeReal::parsed_as(d, p, v.old_time_value)
            && TimeReal::parsed_as(d, p1, v.new_time_value)
            && Name::parsed_as(d, p2, v.workshop_name)
            && Address::parsed_as(d, p3, v.workshop_address)
            && FullCardNumber::parsed_as(d, p4, v.workshop_card_number)
    }

    open spec fn parse_err(d: Seq<u8>, p: int) -> ParseError {
        let p1 = TimeReal::parse_end(d, p);
        let p2 = TimeReal::parse_end(d, p1);
        let p3 = Name::parse_end(d, p2);
        let p4 = Address::parse_end(d, p3);
        if !TimeReal::parse_ok(d, p) {
            TimeReal::parse_err(d, p)
        } else if !TimeReal::parse_ok(d, p1) {
            TimeReal::parse_err(d, p1)
        } else if !Name::parse_ok(d, p2) {
            Name::parse_err(d, p2)
        } else if !Address::parse_ok(d, p3) {
            Address::parse_err(d, p3)
        } else if !FullCardNumber::parse_ok(d, p4) {
            FullCardNumber::parse_err(d, p4)
        } else {
            ParseError::InvalidValue
        }
    }

    fn parse(cursor: &mut Cursor) -> (res: Result<VuTimeAdjustmentRecord, ParseError>) {
        VuTimeAdjustmentRecord::parse(cursor)
    }
}

/// VuTimeAdjustmentData (appendix 2.231): a count and that many records.
#[derive(Debug)]
pub struct VuTimeAdjustmentData {
    pub no_of_vu_time_adj_records: u8,
    pub vu_time_adjustment_records: Vec<VuTimeAdjustmentRecord>,
}

impl VuTimeAdjustmentData {
    /// Reads a `VuTimeAdjustmentData` at the reader's position.
    pub fn parse(cursor: &mut Cursor) -> (res: Result<VuTimeAdjustmentData, ParseError>)
        ensures
            final(cursor).data() == old(cursor).data(),
            old(cursor).pos() <= final(cursor).pos(),
            final(cursor).pos() == VuTimeAdjustmentData::parse_end(old(cursor).data(), old(cursor).pos()),
            res is Ok <==> VuTimeAdjustmentData::parse_ok(old(cursor).data(), old(cursor).pos()),
            res matches Ok(v) ==> VuTimeAdjustmentData::parsed_as(old(cursor).data(), old(cursor).pos(), v),
            res matches Err(e) ==> e == VuTimeAdjustmentData::parse_err(old(cursor).data(), old(cursor).pos()),
    {
        let no_of_vu_time_adj_records = cursor.read_u8()?;
        let vu_time_adjustment_records = parse_counted::<VuTimeAdjustmentRecord>(cursor, no_of_vu_time_adj_records as usize)?;
        Ok(VuTimeAdjustmentData { no_of_vu_time_adj_records, vu_time_adjustment_records })
    }
}

impl Parse for VuTimeAdjustmentData {
    open spec fn parse_ok(d: Seq<u8>, p: int) -> bool {
        bytes_ok(d, p, 1) && leading_successes::<VuTimeAdjustmentRecord>(d, p + 1, d[p] as nat) == d[p]
    }

    open spec fn parse_end(d: Seq<u8>, p: int) -> int {
        if !bytes_ok(d, p, 1) {
            d.len() as int
        } else {
            counted_end::<VuTimeAdjustmentRecord>(d, p + 1, d[p] as nat)
        }
    }

    open spec fn parse_err(d: Seq<u8>, p: int) -> ParseError {
        if !bytes_ok(d, p, 1) {
            ParseError::UnexpectedEnd
        } else {
            counted_err::<VuTimeAdjustmentRecord>(d, p + 1, d[p] as nat)
        }
    }

    open spec fn parsed_as(d: Seq<u8>, p: int, v: VuTimeAdjustmentData) -> bool {
        v.no_of_vu_time_adj_records == d[p] && values_at(
            d,
            attempt_positions::<VuTimeAdjustmentRecord>(d, p + 1, d[p] as nat),
            v.vu_time_adjustment_records@,
        )
    }

    fn parse(cursor: &mut Cursor) -> (res: Result<VuTimeAdjustmentData, ParseError>) {
        VuTimeAdjustmentData::parse(cursor)
    }
}

/// The events and faults block of a generation 1 vehicle unit download (TREP 03).
#[derive(Debug)]
pub struct VuEventsAndFaultsBlock {
    pub vu_fault_data: VuFaultData,
    pub vu_event_data: VuEventData,
    pub vu_over_speeding_control_data: VuOverSpeedingControlData,
    pub vu_over_speeding_event_data: VuOverSpeedingEventData,
    pub vu_time_adjustment_data: VuTimeAdjustmentData,
    pub signature: Signature,
}

impl VuEventsAndFaultsBlock {
    /// Reads a `VuEventsAndFaultsBlock` at the reader's position.
    pub fn parse(cursor: &mut Cursor) -> (res: Result<VuEventsAndFaultsBlock, ParseError>)
        ensures
            final(cursor).data() == old(cursor).data(),
            old(cursor).pos() <= final(cursor).pos(),
            final(cursor).pos() == VuEventsAndFaultsBlock::parse_end(old(cursor).data(), old(cursor).pos()),
            res is Ok <==> VuEventsAndFaultsBlock::parse_ok(old(cursor).data(), old(cursor).pos()),
            res matches Ok(v) ==> VuEventsAndFaultsBlock::parsed_as(old(cursor).data(), old(cursor).pos(), v),
            res matches Err(e) ==> e == VuEventsAndFaultsBlock::parse_err(old(cursor).data(), old(cursor).pos()),
    {
        let vu_fault_data = VuFaultData::parse(cursor)?;
        let vu_event_data = VuEventData::parse(cursor)?;
        let vu_over_speeding_control_data = VuOverSpeedingControlData::parse(cursor)?;
        let vu_over_speeding_event_data = VuOverSpeedingEventData::parse(cursor)?;
        let vu_time_adjustment_data = VuTimeAdjustmentData::parse(cursor)?;
        let signature = Signature::parse(cursor)?;
        Ok(VuEventsAndFaultsBlock { vu_fault_data, vu_event_data, vu_over_speeding_control_data, vu_over_speeding_event_data, vu_time_adjustment_data, signature })
    }
}

impl Parse for VuEventsAndFaultsBlock {
    closed spec fn parse_ok(d: Seq<u8>, p: int) -> bool {
        let p1 = VuFaultData::parse_end(d, p);
        let p2 = VuEventData::parse_end(d, p1);
        let p3 = VuOverSpeedingControlData::parse_end(d, p2);
        let p4 = VuOverSpeedingEventData::parse_end(d, p3);
        let p5 = VuTimeAdjustmentData::parse_end(d, p4);
        VuFaultData::parse_ok(d, p)
            && VuEventData::parse_ok(d, p1)
            && VuOverSpeedingControlData::parse_ok(d, p2)
            && VuOverSpeedingEventData::parse_ok(d, p3)
            && VuTimeAdjustmentData::parse_ok(d, p4)
            && Signature::parse_ok(d, p5)
    }

    closed spec fn parse_end(d: Seq<u8>, p: int) -> int {
        let p1 = VuFaultData::parse_end(d, p);
        let p2 = VuEventData::parse_end(d, p1);
        let p3 = VuOverSpeedingControlData::parse_end(d, p2);
        let p4 = VuOverSpeedingEventData::parse_end(d, p3);
        let p5 = VuTimeAdjustmentData::parse_end(d, p4);
        let p6 = Signature::parse_end(d, p5);
        if !VuFaultData::parse_ok(d, p) {
            p1
        } else if !VuEventData::parse_ok(d, p1) {
            p2
        } else if !VuOverSpeedingControlData::parse_ok(d, p2) {
            p3
        } else if !VuOverSpeedingEventData::parse_ok(d, p3) {
            p4
        } else if !VuTimeAdjustmentData::parse_ok(d, p4) {
            p5
        } else if !Signature::parse_ok(d, p5) {
            p6
        } else {
            p6
        }
    }

    closed spec fn parsed_as(d: Seq<u8>, p: int, v: VuEventsAndFaultsBlock) -> bool {
        let p1 = VuFaultData::parse_end(d, p);
        let p2 = VuEventData::parse_end(d, p1);
        let p3 = VuOverSpeedingControlData::parse_end(d, p2);
        let p4 = VuOverSpeedingEventData::parse_end(d, p3);
        let p5 = VuTimeAdjustmentData::parse_end(d, p4);
        VuFaultData::parsed_as(d, p, v.vu_fault_data)
            && VuEventData::parsed_as(d, p1, v.vu_event_data)
            && VuOverSpeedingControlData::parsed_as(d, p2, v.vu_over_speeding_control_data)
            && VuOverSpeedingEventData::parsed_as(d, p3, v.vu_over_speeding_event_data)
            && VuTimeAdjustmentData::parsed_as(d, p4, v.vu_time_adjustment_data)
            && Signature::parsed_as(d, p5, v.signature)
    }

    closed spec fn parse_err(d: Seq<u8>, p: int) -> ParseError {
        let p1 = VuFaultData::parse_end(d, p);
        let p2 = VuEventData::parse_end(d, p1);
        let p3 = VuOverSpeedingControlData::parse_end(d, p2);
        let p4 = VuOverSpeedingEventData::parse_end(d, p3);
        let p5 = VuTimeAdjustmentData::parse_end(d, p4);
        if !VuFaultData::parse_ok(d, p) {
            VuFaultData::parse_err(d, p)
        } else if !VuEventData::parse_ok(d, p1) {
            VuEventData::parse_err(d, p1)
        } else if !VuOverSpeedingControlData::parse_ok(d, p2) {
            VuOverSpeedingControlData::parse_err(d, p2)
        } else if !VuOverSpeedingEventData::parse_ok(d, p3) {
            VuOverSpeedingEventData::parse_err(d, p3)
        } else if !VuTimeAdjustmentData::parse_ok(d, p4) {
            VuTimeAdjustmentData::parse_err(d, p4)
        } else if !Signature::parse_ok(d, p5) {
            Signature::parse_err(d, p5)
        } else {
            ParseError::InvalidValue
        }
    }

    fn parse(cursor: &mut Cursor) -> (res: Result<VuEventsAndFaultsBlock, ParseError>) {
        VuEventsAndFaultsBlock::parse(cursor)
    }
}

impl VuEventsAndFaultsBlock {
    /// What reading a `VuEventsAndFaultsBlock` at position `p` of `d` means, spelled out
    /// for readers outside this module.
    pub proof fn lemma_parse_spec(d: Seq<u8>, p: int, v: VuEventsAndFaultsBlock)
        ensures
            VuEventsAndFaultsBlock::parse_ok(d, p) == ({
                let p1 = VuFaultData::parse_end(d, p);
                let p2 = VuEventData::parse_end(d, p1);
                let p3 = VuOverSpeedingControlData::parse_end(d, p2);
                let p4 = VuOverSpeedingEventData::parse_end(d, p3);
                let p5 = VuTimeAdjustmentData::parse_end(d, p4);
                VuFaultData::parse_ok(d, p)
            && VuEventData::parse_ok(d, p1)
            && VuOverSpeedingControlData::parse_ok(d, p2)
            && VuOverSpeedingEventData::parse_ok(d, p3)
            && VuTimeAdjustmentData::parse_ok(d, p4)
            && Signature::parse_ok(d, p5)
            }),
            VuEventsAndFaultsBlock::parse_end(d, p) == ({
                let p1 = VuFaultData::parse_end(d, p);
                let p2 = VuEventData::parse_end(d, p1);
                let p3 = VuOverSpeedingControlData::parse_end(d, p2);
                let p4 = VuOverSpeedingEventData::parse_end(d, p3);
                let p5 = VuTimeAdjustmentData::parse_end(d, p4);
                let p6 = Signature::parse_end(d, p5);
                if !VuFaultData::parse_ok(d, p) {
            p1
        } else if !VuEventData::parse_ok(d, p1) {
            p2
        } else if !VuOverSpeedingControlData::parse_ok(d, p2) {
            p3
        } else if !VuOverSpeedingEventData::parse_ok(d, p3) {
            p4
        } else if !VuTimeAdjustmentData::parse_ok(d, p4) {
            p5
        } else if !Signature::parse_ok(d, p5) {
            p6
        } else {
            p6
        }
            }),
            VuEventsAndFaultsBlock::parsed_as(d, p, v) == ({
                let p1 = VuFaultData::parse_end(d, p);
                let p2 = VuEventData::parse_end(d, p1);
                let p3 = VuOverSpeedingControlData::parse_end(d, p2);
                let p4 = VuOverSpeedingEventData::parse_end(d, p3);
                let p5 = VuTimeAdjustmentData::parse_end(d, p4);
                VuFaultData::parsed_as(d, p, v.vu_fault_data)
            && VuEventData::parsed_as(d, p1, v.vu_event_data)
            && VuOverSpeedingControlData::parsed_as(d, p2, v.vu_over_speeding_control_data)
            && VuOverSpeedingEventData::parsed_as(d, p3, v.vu_over_speeding_event_data)
            && VuTimeAdjustmentData::parsed_as(d, p4, v.vu_time_adjustment_data)
            && Signature::parsed_as(d, p5, v.signature)
            }),
            VuEventsAndFaultsBlock::parse_err(d, p) == ({
                let p1 = VuFaultData::parse_end(d, p);
                let p2 = VuEventData::parse_end(d, p1);
                let p3 = VuOverSpeedingControlData::parse_end(d, p2);
                let p4 = VuOverSpeedingEventData::parse_end(d, p3);
                let p5 = VuTimeAdjustmentData::parse_end(d, p4);
                if !VuFaultData::parse_ok(d, p) {
            VuFaultData::parse_err(d, p)
        } else if !VuEventData::parse_ok(d, p1) {
            VuEventData::parse_err(d, p1)
        } else if !VuOverSpeedingControlData::parse_ok(d, p2) {
            VuOverSpeedingControlData::parse_err(d, p2)
        } else if !VuOverSpeedingEventData::parse_ok(d, p3) {
            VuOverSpeedingEventData::parse_err(d, p3)
        } else if !VuTimeAdjustmentData::parse_ok(d, p4) {
            VuTimeAdjustmentData::parse_err(d, p4)
        } else if !Signature::parse_ok(d, p5) {
            Signature::parse_err(d, p5)
        } else {
            ParseError::InvalidValue
        }
            }),
    {
    }
}

/// VuDetailedSpeedData (appendix 2.191): a count and that many blocks of speeds (TREP 04).
#[derive(Debug)]
pub struct VuDetailedSpeedData {
    pub no_of_speed_blocks: u8,
    pub vu_detailed_speed_records: Vec<VuDetailedSpeedBlock>,
}

impl VuDetailedSpeedData {
    /// Reads a `VuDetailedSpeedData` at the reader's position.
    pub fn parse(cursor: &mut Cursor) -> (res: Result<VuDetailedSpeedData, ParseError>)
        ensures
            final(cursor).data() == old(cursor).data(),
            old(cursor).pos() <= final(cursor).pos(),
            final(cursor).pos() == VuDetailedSpeedData::parse_end(old(cursor).data(), old(cursor).pos()),
            res is Ok <==> VuDetailedSpeedData::parse_ok(old(cursor).data(), old(cursor).pos()),
            res matches Ok(v) ==> VuDetailedSpeedData::parsed_as(old(cursor).data(), old(cursor).pos(), v),
            res matches Err(e) ==> e == VuDetailedSpeedData::parse_err(old(cursor).data(), old(cursor).pos()),
    {
        let no_of_speed_blocks = cursor.read_u8()?;
        let vu_detailed_speed_records = parse_counted::<VuDetailedSpeedBlock>(cursor, no_of_speed_blocks as usize)?;
        Ok(VuDetailedSpeedData { no_of_speed_blocks, vu_detailed_speed_records })
    }
}

impl Parse for VuDetailedSpeedData {
    open spec fn parse_ok(d: Seq<u8>, p: int) -> bool {
        bytes_ok(d, p, 1) && leading_successes::<VuDetailedSpeedBlock>(d, p + 1, d[p] as nat) == d[p]
    }

    open spec fn parse_end(d: Seq<u8>, p: int) -> int {
        if !bytes_ok(d, p, 1) {
            d.len() as int
        } else {
            counted_end::<VuDetailedSpeedBlock>(d, p + 1, d[p] as nat)
        }
    }

    open spec fn parse_err(d: Seq<u8>, p: int) -> ParseError {
        if !bytes_ok(d, p, 1) {
            ParseError::UnexpectedEnd
        } else {
            counted_err::<VuDetailedSpeedBlock>(d, p + 1, d[p] as nat)
        }
    }

    open spec fn parsed_as(d: Seq<u8>, p: int, v: VuDetailedSpeedData) -> bool {
        v.no_of_speed_blocks == d[p] && values_at(
            d,
            attempt_positions::<VuDetailedSpeedBlock>(d, p + 1, d[p] as nat),
            v.vu_detailed_speed_records@,
        )
    }

    fn parse(cursor: &mut Cursor) -> (res: Result<VuDetailedSpeedData, ParseError>) {
        VuDetailedSpeedData::parse(cursor)
    }
}

/// VuIdentification (appendix 2.205) as generation 1 defines it.
#[derive(Debug)]
pub struct VuIdentification {
    pub vu_manufacturer_name: VuManufacturerName,
    pub vu_manufacturer_address: VuManufacturerAddress,
    pub vu_part_number: VuPartNumber,
    pub vu_serial_number: VuSerialNumber,
    pub vu_software_identification: VuSoftwareIdentification,
    pub vu_manufacturing_date: VuManufacturingDate,
    pub vu_approval_number: VuApprovalNumber,
}

impl VuIdentification {
    /// Reads a `VuIdentification` at the reader's position.
    pub fn parse(cursor: &mut Cursor) -> (res: Result<VuIdentification, ParseError>)
        ensures
            final(cursor).data() == old(cursor).data(),
            old(cursor).pos() <= final(cursor).pos(),
            final(cursor).pos() == VuIdentification::parse_end(old(cursor).data(), old(cursor).pos()),
            res is Ok <==> VuIdentification::parse_ok(old(cursor).data(), old(cursor).pos()),
            res matches Ok(v) ==> VuIdentification::parsed_as(old(cursor).data(), old(cursor).pos(), v),
            res matches Err(e) ==> e == VuIdentification::parse_err(old(cursor).data(), old(cursor).pos()),
    {
        let vu_manufacturer_name = VuManufacturerName::parse(cursor)?;
        let vu_manufacturer_address = VuManufacturerAddress::parse(cursor)?;
        let vu_part_number = VuPartNumber::parse(cursor)?;
        let vu_serial_number = VuSerialNumber::parse(cursor)?;
        let vu_software_identification = VuSoftwareIdentification::parse(cursor)?;
        let vu_manufacturing_date = VuManufacturingDate::parse(cursor)?;
        let vu_approval_number = VuApprovalNumber::parse(cursor)?;
        Ok(VuIdentification { vu_manufacturer_name, vu_manufacturer_address, vu_part_number, vu_serial_number, vu_software_identification, vu_manufacturing_date, vu_approval_number })
    }
}

impl Parse for VuIdentification {
    open spec fn parse_ok(d: Seq<u8>, p: int) -> bool {
        let p1 = VuManufacturerName::parse_end(d, p);
        let p2 = VuManufacturerAddress::parse_end(d, p1);
        let p3 = VuPartNumber::parse_end(d, p2);
        let p4 = VuSerialNumber::parse_end(d, p3);
        let p5 = VuSoftwareIdentification::parse_end(d, p4);
        let p6 = VuManufacturingDate::parse_end(d, p5);
        VuManufacturerName::parse_ok(d, p)
            && VuManufacturerAddress::parse_ok(d, p1)
            && VuPartNumber::parse_ok(d, p2)
            && VuSerialNumber::parse_ok(d, p3)
            && VuSoftwareIdentification::parse_ok(d, p4)
            && VuManufacturingDate::parse_ok(d, p5)
            && VuApprovalNumber::parse_ok(d, p6)
    }

    open spec fn parse_end(d: Seq<u8>, p: int) -> int {
        let p1 = VuManufacturerName::parse_end(d, p);
        let p2 = VuManufacturerAddress::parse_end(d, p1);
        let p3 = VuPartNumber::parse_end(d, p2);
        let p4 = VuSerialNumber::parse_end(d, p3);
        let p5 = VuSoftwareIdentification::parse_end(d, p4);
        let p6 = VuManufacturingDate::parse_end(d, p5);
        let p7 = VuApprovalNumber::parse_end(d, p6);
        if !VuManufacturerName::parse_ok(d, p) {
            p1
        } else if !VuManufacturerAddress::parse_ok(d, p1) {
            p2
        } else if !VuPartNumber::parse_ok(d, p2) {
            p3
        } else if !VuSerialNumber::parse_ok(d, p3) {
            p4
        } else if !VuSoftwareIdentification::parse_ok(d, p4) {
            p5
        } else if !VuManufacturingDate::parse_ok(d, p5) {
            p6
        } else if !VuApprovalNumber::parse_ok(d, p6) {
            p7
        } else {
            p7
        }
    }

    open spec fn parsed_as(d: Seq<u8>, p: int, v: VuIdentification) -> bool {
        let p1 = VuManufacturerName::parse_end(d, p);
        let p2 = VuManufacturerAddress::parse_end(d, p1);
        let p3 = VuPartNumber::parse_end(d, p2);
        let p4 = VuSerialNumber::parse_end(d, p3);
        let p5 = VuSoftwareIdentification::parse_end(d, p4);
        let p6 = VuManufacturingDate::parse_end(d, p5);
        VuManufacturerName::parsed_as(d, p, v.vu_manufacturer_name)
            && VuManufacturerAddress::parsed_as(d, p1, v.vu_manufacturer_address)
            && VuPartNumber::parsed_as(d, p2, v.vu_part_number)
            && VuSerialNumber::parsed_as(d, p3, v.vu_serial_number)
            && VuSoftwareIdentification::parsed_as(d, p4, v.vu_software_identification)
            && VuManufacturingDate::parsed_as(d, p5, v.vu_manufacturing_date)
            && VuApprovalNumber::parsed_as(d, p6, v.vu_approval_number)
    }

    open spec fn parse_err(d: Seq<u8>, p: int) -> ParseError {
        let p1 = VuManufacturerName::parse_end(d, p);
        let p2 = VuManufacturerAddress::parse_end(d, p1);
        let p3 = VuPartNumber::parse_end(d, p2);
        let p4 = VuSerialNumber::parse_end(d, p3);
        let p5 = VuSoftwareIdentification::parse_end(d, p4);
        let p6 = VuManufacturingDate::parse_end(d, p5);
        if !VuManufacturerName::parse_ok(d, p) {
            VuManufacturerName::parse_err(d, p)
        } else if !VuManufacturerAddress::parse_ok(d, p1) {
            VuManufacturerAddress::parse_err(d, p1)
        } else if !VuPartNumber::parse_ok(d, p2) {
            VuPartNumber::parse_err(d, p2)
        } else if !VuSerialNumber::parse_ok(d, p3) {
            VuSerialNumber::parse_err(d, p3)
        } else if !VuSoftwareIdentification::parse_ok(d, p4) {
            VuSoftwareIdentification::parse_err(d, p4)
        } else if !VuManufacturingDate::parse_ok(d, p5) {
            VuManufacturingDate::parse_err(d, p5)
        } else if !VuApprovalNumber::parse_ok(d, p6) {
            VuApprovalNumber::parse_err(d, p6)
        } else {
            ParseError::InvalidValue
        }
    }

    fn parse(cursor: &mut Cursor) -> (res: Result<VuIdentification, ParseError>) {
        VuIdentification::parse(cursor)
    }
}

/// SensorPaired (appendix 2.144).
#[derive(Debug)]
pub struct SensorPaired {
    pub sensor_serial_number: SensorSerialNumber,
    pub sensor_approval_number: SensorApprovalNumber,
    pub sensor_pairing_date_first: SensorPairingDate,
}

impl SensorPaired {
    /// Reads a `SensorPaired` at the reader's position.
    pub fn parse(cursor: &mut Cursor) -> (res: Result<SensorPaired, ParseError>)
        ensures
            final(cursor).data() == old(cursor).data(),
            old(cursor).pos() <= final(cursor).pos(),
            final(cursor).pos() == SensorPaired::parse_end(old(cursor).data(), old(cursor).pos()),
            res is Ok <==> SensorPaired::parse_ok(old(cursor).data(), old(cursor).pos()),
            res matches Ok(v) ==> SensorPaired::parsed_as(old(cursor).data(), old(cursor).pos(), v),
            res matches Err(e) ==> e == SensorPaired::parse_err(old(cursor).data(), old(cursor).pos()),
    {
        let sensor_serial_number = SensorSerialNumber::parse(cursor)?;
        let sensor_approval_number = SensorApprovalNumber::parse(cursor)?;
        let sensor_pairing_date_first = SensorPairingDate::parse(cursor)?;
        Ok(SensorPaired { sensor_serial_number, sensor_approval_number, sensor_pairing_date_first })
    }
}

impl Parse for SensorPaired {
    open spec fn parse_ok(d: Seq<u8>, p: int) -> bool {
        let p1 = SensorSerialNumber::parse_end(d, p);
        let p2 = SensorApprovalNumber::parse_end(d, p1);
        SensorSerialNumber::parse_ok(d, p)
            && SensorApprovalNumber::parse_ok(d, p1)
            && SensorPairingDate::parse_ok(d, p2)
    }

    open spec fn parse_end(d: Seq<u8>, p: int) -> int {
        let p1 = SensorSerialNumber::parse_end(d, p);
        let p2 = SensorApprovalNumber::parse_end(d, p1);
        let p3 = SensorPairingDate::parse_end(d, p2);
        if !SensorSerialNumber::parse_ok(d, p) {
            p1
        } else if !SensorApprovalNumber::parse_ok(d, p1) {
            p2
        } else if !SensorPairingDate::parse_ok(d, p2) {
            p3
        } else {
            p3
        }
    }

    open spec fn parsed_as(d: Seq<u8>, p: int, v: SensorPaired) -> bool {
        let p1 = SensorSerialNumber::parse_end(d, p);
        let p2 = SensorApprovalNumber::parse_end(d, p1);
        SensorSerialNumber::parsed_as(d, p, v.sensor_serial_number)
            && SensorApprovalNumber::parsed_as(d, p1, v.sensor_approval_number)
            && SensorPairingDate::parsed_as(d, p2, v.sensor_pairing_date_first)
    }

    open spec fn parse_err(d: Seq<u8>, p: int) -> ParseError {
        let p1 = SensorSerialNumber::parse_end(d, p);
        let p2 = SensorApprovalNumber::parse_end(d, p1);
        if !SensorSerialNumber::parse_ok(d, p) {
            SensorSerialNumber::parse_err(d, p)
        } else if !SensorApprovalNumber::parse_ok(d, p1) {
            SensorApprovalNumber::parse_err(d, p1)
        } else if !SensorPairingDate::parse_ok(d, p2) {
            SensorPairingDate::parse_err(d, p2)
        } else {
            ParseError::InvalidValue
        }
    }

    fn parse(cursor: &mut Cursor) -> (res: Result<SensorPaired, ParseError>) {
        SensorPaired::parse(cursor)
    }
}

/// VuCalibrationRecord (appendix 2.174) as generation 1 defines it.
#[derive(Debug)]
pub struct VuCalibrationRecord {
    pub calibration_purpose: CalibrationPurpose,
    pub workshop_name: Name,
    pub workshop_address: Address,
    pub workshop_card_number: FullCardNumber,
    pub workshop_card_expiry_date: Option<TimeReal>,
    pub vehicle_identification_number: Option<VehicleIdentificationNumber>,
    pub vehicle_registration_identification: Option<VehicleRegistrationIdentification>,
    pub w_vehicle_characteristic_constant: WVehicleCharacteristicConstant,
    pub k_constant_of_recording_equipment: KConstantOfRecordingEquipment,
    pub l_tyre_circumference: LTyreCircumference,
    pub tyre_size: TyreSize,
    pub authorised_speed: SpeedAuthorised,
    pub old_odometer_value: OdometerShort,
    pub new_odometer_value: OdometerShort,
    pub old_time_value: Option<TimeReal>,
    pub new_time_value: Option<TimeReal>,
    pub next_calibration_date: Option<TimeReal>,
}

impl VuCalibrationRecord {
    /// Reads a `VuCalibrationRecord` at the reader's position.
    pub fn parse(cursor: &mut Cursor) -> (res: Result<VuCalibrationRecord, ParseError>)
        ensures
            final(cursor).data() == old(cursor).data(),
            old(cursor).pos() <= final(cursor).pos(),
            final(cursor).pos() == VuCalibrationRecord::parse_end(old(cursor).data(), old(cursor).pos()),
            res is Ok <==> VuCalibrationRecord::parse_ok(old(cursor).data(), old(cursor).pos()),
            res matches Ok(v) ==> VuCalibrationRecord::parsed_as(old(cursor).data(), old(cursor).pos(), v),
            res matches Err(e) ==> e == VuCalibrationRecord::parse_err(old(cursor).data(), old(cursor).pos()),
    {
        let calibration_purpose = CalibrationPurpose::parse(cursor)?;
        let workshop_name = Name::parse(cursor)?;
        let workshop_address = Address::parse(cursor)?;
        let workshop_card_number = FullCardNumber::parse(cursor)?;
        let workshop_card_expiry_date = parse_optional::<TimeReal>(cursor);
        let vehicle_identification_number = parse_optional::<VehicleIdentificationNumber>(cursor);
        let vehicle_registration_identification = parse_optional::<VehicleRegistrationIdentification>(cursor);
        let w_vehicle_characteristic_constant = WVehicleCharacteristicConstant::parse(cursor)?;
        let k_constant_of_recording_equipment = KConstantOfRecordingEquipment::parse(cursor)?;
        let l_tyre_circumference = LTyreCircumference::parse(cursor)?;
        let tyre_size = TyreSize::parse(cursor)?;
        let authorised_speed = SpeedAuthorised::parse(cursor)?;
        let old_odometer_value = OdometerShort::parse(cursor)?;
        let new_odometer_value = OdometerShort::parse(cursor)?;
        let old_time_value = parse_optional::<TimeReal>(cursor);
        let new_time_value = parse_optional::<TimeReal>(cursor);
        let next_calibration_date = parse_optional::<TimeReal>(cursor);
        Ok(VuCalibrationRecord { calibration_purpose, workshop_name, workshop_address, workshop_card_number, workshop_card_expiry_date, vehicle_identification_number, vehicle_registration_identification, w_vehicle_characteristic_constant, k_constant_of_recording_equipment, l_tyre_circumference, tyre_size, authorised_speed, old_odometer_value, new_odometer_value, old_time_value, new_time_value, next_calibration_date })
    }
}

impl Parse for VuCalibrationRecord {
    open spec fn parse_ok(d: Seq<u8>, p: int) -> bool {
        let p1 = CalibrationPurpose::parse_end(d, p);
        let p2 = Name::parse_end(d, p1);
        let p3 = Address::parse_end(d, p2);
        let p4 = FullCardNumber::parse_end(d, p3);
        let p5 = TimeReal::parse_end(d, p4);
        let p6 = VehicleIdentificationNumber::parse_end(d, p5);
        let p7 = VehicleRegistrationIdentification::parse_end(d, p6);
        let p8 = WVehicleCharacteristicConstant::parse_end(d, p7);
        let p9 = KConstantOfRecordingEquipment::parse_end(d, p8);
        let p10 = LTyreCircumference::parse_end(d, p9);
        let p11 = TyreSize::parse_end(d, p10);
        let p12 = SpeedAuthorised::parse_end(d, p11);
        let p13 = OdometerShort::parse_end(d, p12);
        CalibrationPurpose::parse_ok(d, p)
            && Name::parse_ok(d, p1)
            && Address::parse_ok(d, p2)
            && FullCardNumber::parse_ok(d, p3)
            && WVehicleCharacteristicConstant::parse_ok(d, p7)
            && KConstantOfRecordingEquipment::parse_ok(d, p8)
            && LTyreCircumference::parse_ok(d, p9)
            && TyreSize::parse_ok(d, p10)
            && SpeedAuthorised::parse_ok(d, p11)
            && OdometerShort::parse_ok(d, p12)
            && OdometerShort::parse_ok(d, p13)
    }

    open spec fn parse_end(d: Seq<u8>, p: int) -> int {
        let p1 = CalibrationPurpose::parse_end(d, p);
        let p2 = Name::parse_end(d, p1);
        let p3 = Address::parse_end(d, p2);
        let p4 = FullCardNumber::parse_end(d, p3);
        let p5 = TimeReal::parse_end(d, p4);
        let p6 = VehicleIdentificationNumber::parse_end(d, p5);
        let p7 = VehicleRegistrationIdentification::parse_end(d, p6);
        let p8 = WVehicleCharacteristicConstant::parse_end(d, p7);
        let p9 = KConstantOfRecordingEquipment::parse_end(d, p8);
        let p10 = LTyreCircumference::parse_end(d, p9);
        let p11 = TyreSize::parse_end(d, p10);
        let p12 = SpeedAuthorised::parse_end(d, p11);
        let p13 = OdometerShort::parse_end(d, p12);
        let p14 = OdometerShort::parse_end(d, p13);
        let p15 = TimeReal::parse_end(d, p14);
        let p16 = TimeReal::parse_end(d, p15);
        let p17 = TimeReal::parse_end(d, p16);
        if !CalibrationPurpose::parse_ok(d, p) {
            p1
        } else if !Name::parse_ok(d, p1) {
            p2
        } else if !Address::parse_ok(d, p2) {
            p3
        } else if !FullCardNumber::parse_ok(d, p3) {
            p4
        } else if !WVehicleCharacteristicConstant::parse_ok(d, p7) {
            p8
        } else if !KConstantOfRecordingEquipment::parse_ok(d, p8) {
            p9
        } else if !LTyreCircumference::parse_ok(d, p9) {
            p10
        } else if !TyreSize::parse_ok(d, p10) {
            p11
        } else if !SpeedAuthorised::parse_ok(d, p11) {
            p12
        } else if !OdometerShort::parse_ok(d, p12) {
            p13
        } else if !OdometerShort::parse_ok(d, p13) {
            p14
        } else {
            p17
        }
    }

    open spec fn parsed_as(d: Seq<u8>, p: int, v: VuCalibrationRecord) -> bool {
        let p1 = CalibrationPurpose::parse_end(d, p);
        let p2 = Name::parse_end(d, p1);
        let p3 = Address::parse_end(d, p2);
        let p4 = FullCardNumber::parse_end(d, p3);
        let p5 = TimeReal::parse_end(d, p4);
        let p6 = VehicleIdentificationNumber::parse_end(d, p5);
        let p7 = VehicleRegistrationIdentification::parse_end(d, p6);
        let p8 = WVehicleCharacteristicConstant::parse_end(d, p7);
        let p9 = KConstantOfRecordingEquipment::parse_end(d, p8);
        let p10 = LTyreCircumference::parse_end(d, p9);
        let p11 = TyreSize::parse_end(d, p10);
        let p12 = SpeedAuthorised::parse_end(d, p11);
        let p13 = OdometerShort::parse_end(d, p12);
        let p14 = OdometerShort::parse_end(d, p13);
        let p15 = TimeReal::parse_end(d, p14);
        let p16 = TimeReal::parse_end(d, p15);
        CalibrationPurpose::parsed_as(d, p, v.calibration_purpose)
            && Name::parsed_as(d, p1, v.workshop_name)
            && Address::parsed_as(d, p2, v.workshop_address)
            && FullCardNumber::parsed_as(d, p3, v.workshop_card_number)
            && optional_as::<TimeReal>(d, p4, v.workshop_card_expiry_date)
            && optional_as::<VehicleIdentificationNumber>(d, p5, v.vehicle_identification_number)
            && optional_as::<VehicleRegistrationIdentification>(d, p6, v.vehicle_registration_identification)
            && WVehicleCharacteristicConstant::parsed_as(d, p7, v.w_vehicle_characteristic_constant)
            && KConstantOfRecordingEquipment::parsed_as(d, p8, v.k_constant_of_recording_equipment)
            && LTyreCircumference::parsed_as(d, p9, v.l_tyre_circumference)
            && TyreSize::parsed_as(d, p10, v.tyre_size)
            && SpeedAuthorised::parsed_as(d, p11, v.authorised_speed)
            && OdometerShort::parsed_as(d, p12, v.old_odometer_value)
            && OdometerShort::parsed_as(d, p13, v.new_odometer_value)
            && optional_as::<TimeReal>(d, p14, v.old_time_value)
            && optional_as::<TimeReal>(d, p15, v.new_time_value)
            && optional_as::<TimeReal>(d, p16, v.next_calibration_date)
    }

    open spec fn parse_err(d: Seq<u8>, p: int) -> ParseError {
        let p1 = CalibrationPurpose::parse_end(d, p);
        let p2 = Name::parse_end(d, p1);
        let p3 = Address::parse_end(d, p2);
        let p4 = FullCardNumber::parse_end(d, p3);
        let p5 = TimeReal::parse_end(d, p4);
        let p6 = VehicleIdentificationNumber::parse_end(d, p5);
        let p7 = VehicleRegistrationIdentification::parse_end(d, p6);
        let p8 = WVehicleCharacteristicConstant::parse_end(d, p7);
        let p9 = KConstantOfRecordingEquipment::parse_end(d, p8);
        let p10 = LTyreCircumference::parse_end(d, p9);
        let p11 = TyreSize::parse_end(d, p10);
        let p12 = SpeedAuthorised::parse_end(d, p11);
        let p13 = OdometerShort::parse_end(d, p12);
        if !CalibrationPurpose::parse_ok(d, p) {
            CalibrationPurpose::parse_err(d, p)
        } else if !Name::parse_ok(d, p1) {
            Name::parse_err(d, p1)
        } else if !Address::parse_ok(d, p2) {
            Address::parse_err(d, p2)
        } else if !FullCardNumber::parse_ok(d, p3) {
            FullCardNumber::parse_err(d, p3)
        } else if !WVehicleCharacteristicConstant::parse_ok(d, p7) {
            WVehicleCharacteristicConstant::parse_err(d, p7)
        } else if !KConstantOfRecordingEquipment::parse_ok(d, p8) {
            KConstantOfRecordingEquipment::parse_err(d, p8)
        } else if !LTyreCircumference::parse_ok(d, p9) {
            LTyreCircumference::parse_err(d, p9)
        } else if !TyreSize::parse_ok(d, p10) {
            TyreSize::parse_err(d, p10)
        } else if !SpeedAuthorised::parse_ok(d, p11) {
            SpeedAuthorised::parse_err(d, p11)
        } else if !OdometerShort::parse_ok(d, p12) {
            OdometerShort::parse_err(d, p12)
        } else if !OdometerShort::parse_ok(d, p13) {
            OdometerShort::parse_err(d, p13)
        } else {
            ParseError::InvalidValue
        }
    }

    fn parse(cursor: &mut Cursor) -> (res: Result<VuCalibrationRecord, ParseError>) {
        VuCalibrationRecord::parse(cursor)
    }
}

/// VuCalibrationData (appendix 2.173): a count and that many records.
#[derive(Debug)]
pub struct VuCalibrationData {
    pub no_of_vu_calibration_records: u8,
    pub vu_calibration_records: Vec<VuCalibrationRecord>,
}

impl VuCalibrationData {
    /// Reads a `VuCalibrationData` at the reader's position.
    pub fn parse(cursor: &mut Cursor) -> (res: Result<VuCalibrationData, ParseError>)
        ensures
            final(cursor).data() == old(cursor).data(),
            old(cursor).pos() <= final(cursor).pos(),
            final(cursor).pos() == VuCalibrationData::parse_end(old(cursor).data(), old(cursor).pos()),
            res is Ok <==> VuCalibrationData::parse_ok(old(cursor).data(), old(cursor).pos()),
            res matches Ok(v) ==> VuCalibrationData::parsed_as(old(cursor).data(), old(cursor).pos(), v),
            res matches Err(e) ==> e == VuCalibrationData::parse_err(old(cursor).data(), old(cursor).pos()),
    {
        let no_of_vu_calibration_records = cursor.read_u8()?;
        let vu_calibration_records = parse_counted::<VuCalibrationRecord>(cursor, no_of_vu_calibration_records as usize)?;
        Ok(VuCalibrationData { no_of_vu_calibration_records, vu_calibration_records })
    }
}

impl Parse for VuCalibrationData {
    open spec fn parse_ok(d: Seq<u8>, p: int) -> bool {
        bytes_ok(d, p, 1) && leading_successes::<VuCalibrationRecord>(d, p + 1, d[p] as nat) == d[p]
    }

    open spec fn parse_end(d: Seq<u8>, p: int) -> int {
        if !bytes_ok(d, p, 1) {
            d.len() as int
        } else {
            counted_end::<VuCalibrationRecord>(d, p + 1, d[p] as nat)
        }
    }

    open spec fn parse_err(d: Seq<u8>, p: int) -> ParseError {
        if !bytes_ok(d, p, 1) {
            ParseError::UnexpectedEnd
        } else {
            counted_err::<VuCalibrationRecord>(d, p + 1, d[p] as nat)
        }
    }

    open spec fn parsed_as(d: Seq<u8>, p: int, v: VuCalibrationData) -> bool {
        v.no_of_vu_calibration_records == d[p] && values_at(
            d,
            attempt_positions::<VuCalibrationRecord>(d, p + 1, d[p] as nat),
            v.vu_calibration_records@,
        )
    }

    fn parse(cursor: &mut Cursor) -> (res: Result<VuCalibrationData, ParseError>) {
        VuCalibrationData::parse(cursor)
    }
}

/// The technical data block of a generation 1 vehicle unit download (TREP 05).
#[derive(Debug)]
pub struct VuCompanyLocksBlock {
    pub vu_identification: VuIdentification,
    pub sensor_paired: SensorPaired,
    pub vu_calibration_data: VuCalibrationData,
    pub signature: Signature,
}

impl VuCompanyLocksBlock {
    /// Reads a `VuCompanyLocksBlock` at the reader's position.
    pub fn parse(cursor: &mut Cursor) -> (res: Result<VuCompanyLocksBlock, ParseError>)
        ensures
            final(cursor).data() == old(cursor).data(),
            old(cursor).pos() <= final(cursor).pos(),
            final(cursor).pos() == VuCompanyLocksBlock::parse_end(old(cursor).data(), old(cursor).pos()),
            res is Ok <==> VuCompanyLocksBlock::parse_ok(old(cursor).data(), old(cursor).pos()),
            res matches Ok(v) ==> VuCompanyLocksBlock::parsed_as(old(cursor).data(), old(cursor).pos(), v),
            res matches Err(e) ==> e == VuCompanyLocksBlock::parse_err(old(cursor).data(), old(cursor).pos()),
    {
        let vu_identification = VuIdentification::parse(cursor)?;
        let sensor_paired = SensorPaired::parse(cursor)?;
        let vu_calibration_data = VuCalibrationData::parse(cursor)?;
        let signature = Signature::parse(cursor)?;
        Ok(VuCompanyLocksBlock { vu_identification, sensor_paired, vu_calibration_data, signature })
    }
}

impl Parse for VuCompanyLocksBlock {
    closed spec fn parse_ok(d: Seq<u8>, p: int) -> bool {
        let p1 = VuIdentification::parse_end(d, p);
        let p2 = SensorPaired::parse_end(d, p1);
        let p3 = VuCalibrationData::parse_end(d, p2);
        VuIdentification::parse_ok(d, p)
            && SensorPaired::parse_ok(d, p1)
            && VuCalibrationData::parse_ok(d, p2)
            && Signature::parse_ok(d, p3)
    }

    closed spec fn parse_end(d: Seq<u8>, p: int) -> int {
        let p1 = VuIdentification::parse_end(d, p);
        let p2 = SensorPaired::parse_end(d, p1);
        let p3 = VuCalibrationData::parse_end(d, p2);
        let p4 = Signature::parse_end(d, p3);
        if !VuIdentification::parse_ok(d, p) {
            p1
        } else if !SensorPaired::parse_ok(d, p1) {
            p2
        } else if !VuCalibrationData::parse_ok(d, p2) {
            p3
        } else if !Signature::parse_ok(d, p3) {
            p4
        } else {
            p4
        }
    }

    closed spec fn parsed_as(d: Seq<u8>, p: int, v: VuCompanyLocksBlock) -> bool {
        let p1 = VuIdentification::parse_end(d, p);
        let p2 = SensorPaired::parse_end(d, p1);
        let p3 = VuCalibrationData::parse_end(d, p2);
        VuIdentification::parsed_as(d, p, v.vu_identification)
            && SensorPaired::parsed_as(d, p1, v.sensor_paired)
            && VuCalibrationData::parsed_as(d, p2, v.vu_calibration_data)
            && Signature::parsed_as(d, p3, v.signature)
    }

    closed spec fn parse_err(d: Seq<u8>, p: int) -> ParseError {
        let p1 = VuIdentification::parse_end(d, p);
        let p2 = SensorPaired::parse_end(d, p1);
        let p3 = VuCalibrationData::parse_end(d, p2);
        if !VuIdentification::parse_ok(d, p) {
            VuIdentification::parse_err(d, p)
        } else if !SensorPaired::parse_ok(d, p1) {
            SensorPaired::parse_err(d, p1)
        } else if !VuCalibrationData::parse_ok(d, p2) {
            VuCalibrationData::parse_err(d, p2)
        } else if !Signature::parse_ok(d, p3) {
            Signature::parse_err(d, p3)
        } else {
            ParseError::InvalidValue
        }
    }

    fn parse(cursor: &mut Cursor) -> (res: Result<VuCompanyLocksBlock, ParseError>) {
        VuCompanyLocksBlock::parse(cursor)
    }
}

impl VuCompanyLocksBlock {
    /// What reading a `VuCompanyLocksBlock` at position `p` of `d` means, spelled out
    /// for readers outside this module.
    pub proof fn lemma_parse_spec(d: Seq<u8>, p: int, v: VuCompanyLocksBlock)
        ensures
            VuCompanyLocksBlock::parse_ok(d, p) == ({
                let p1 = VuIdentification::parse_end(d, p);
                let p2 = SensorPaired::parse_end(d, p1);
                let p3 = VuCalibrationData::parse_end(d, p2);
                VuIdentification::parse_ok(d, p)
            && SensorPaired::parse_ok(d, p1)
            && VuCalibrationData::parse_ok(d, p2)
            && Signature::parse_ok(d, p3)
            }),
            VuCompanyLocksBlock::parse_end(d, p) == ({
                let p1 = VuIdentification::parse_end(d, p);
                let p2 = SensorPaired::parse_end(d, p1);
                let p3 = VuCalibrationData::parse_end(d, p2);
                let p4 = Signature::parse_end(d, p3);
                if !VuIdentification::parse_ok(d, p) {
            p1
        } else if !SensorPaired::parse_ok(d, p1) {
            p2
        } else if !VuCalibrationData::parse_ok(d, p2) {
            p3
        } else if !Signature::parse_ok(d, p3) {
            p4
        } else {
            p4
        }
            }),
            VuCompanyLocksBlock::parsed_as(d, p, v) == ({
                let p1 = VuIdentification::parse_end(d, p);
                let p2 = SensorPaired::parse_end(d, p1);
                let p3 = VuCalibrationData::parse_end(d, p2);
                VuIdentification::parsed_as(d, p, v.vu_identification)
            && SensorPaired::parsed_as(d, p1, v.sensor_paired)
            && VuCalibrationData::parsed_as(d, p2, v.vu_calibration_data)
            && Signature::parsed_as(d, p3, v.signature)
            }),
            VuCompanyLocksBlock::parse_err(d, p) == ({
                let p1 = VuIdentification::parse_end(d, p);
                let p2 = SensorPaired::parse_end(d, p1);
                let p3 = VuCalibrationData::parse_end(d, p2);
                if !VuIdentification::parse_ok(d, p) {
            VuIdentification::parse_err(d, p)
        } else if !SensorPaired::parse_ok(d, p1) {
            SensorPaired::parse_err(d, p1)
        } else if !VuCalibrationData::parse_ok(d, p2) {
            VuCalibrationData::parse_err(d, p2)
        } else if !Signature::parse_ok(d, p3) {
            Signature::parse_err(d, p3)
        } else {
            ParseError::InvalidValue
        }
            }),
    {
    }
}

} // verus!
