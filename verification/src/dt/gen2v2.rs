//! Types that version 2 of generation 2 (Annex IC as amended in 2023) adds:
//! position authentication, border crossings, load operations, and the
//! blocks that carry them.
use crate::cursor::{
    be16, bytes_end, bytes_ok, optional_as, parse_optional, Cursor, Parse, ParseDyn, ParseError,
};
use crate::dt::external::NationNumeric;
use crate::dt::gen1::RegionNumeric;
use crate::dt::gen2::{
    array_as, array_end, array_err, array_ok, dyn_array_as, dyn_array_err, dyn_array_ok, CalibrationPurposeGen2,
    CertificateGen2, EntryTypeDailyWorkPeriodGen2, FullCardNumberAndGenerationGen2,
    FullCardNumberGen2, GNSSAccuracyGen2, GenerationGen2, GeoCoordinatesGen2, RecordArray,
    SealDataVuGen2, SensorExternalGNSSCoupledRecordGen2, SensorPairedRecordGen2, SignatureGen2,
    SpecificConditionRecordGen2, VuAbilityGen2, VuApprovalNumberGen2, VuCardIWRecordGen2,
    VuCardRecordGen2, VuCompanyLocksGen2, VuControlActivityGen2, VuDownloadActivityDataGen2,
    VuITSConsentRecordGen2, VuSerialNumberGen2, DateOfDayDownloadedGen2,
};
use crate::dt::{
    code_page_as, code_page_end, code_page_ok, parse_code_page_string, ActivityChangeInfo,
    Address, CardSlotsStatus, EventFaultRecordPurpose, IA5String, KConstantOfRecordingEquipment,
    LTyreCircumference, Name, OdometerShort, OdometerValueMidnight, SimilarEventsNumber,
    SpeedAuthorised, TimeReal, TyreSize, VehicleIdentificationNumber,
    VehicleRegistrationIdentification, VehicleRegistrationNumber, VuDownloadablePeriod,
    VuManufacturerAddress, VuManufacturerName, VuManufacturingDate, VuPartNumber,
    VuSoftwareIdentification, WVehicleCharacteristicConstant,
};
use crate::repeat::{attempt_positions, leading_successes, parse_until_failure, values_at};
use vstd::prelude::*;

verus! {

/// The overview block of a version 2 download (TREP 31): eleven record arrays.
#[derive(Debug)]
pub struct VuOverviewBlockGen2V2 {
    pub member_state_certificate_record_array: Vec<CertificateGen2>,
    pub vu_certificate_record_array: Vec<CertificateGen2>,
    pub vehicle_identification_number_record_array: Vec<VehicleIdentificationNumber>,
    pub vehicle_registration_number_record_array: Vec<VehicleRegistrationNumberGen2V2>,
    pub current_date_time_record_array: Vec<TimeReal>,
    pub vu_downloadable_period_record_array: Vec<VuDownloadablePeriod>,
    pub card_slots_status_record_array: Vec<CardSlotsStatus>,
    pub vu_download_activity_data_record_array: Vec<VuDownloadActivityDataGen2>,
    pub vu_company_locks_record_array: Vec<VuCompanyLocksGen2>,
    pub vu_control_activity_record_array: Vec<VuControlActivityGen2>,
    pub signature_record_array: Vec<SignatureGen2>,
}

impl VuOverviewBlockGen2V2 {
    /// Reads a `VuOverviewBlockGen2V2` at the reader's position.
    pub fn parse(cursor: &mut Cursor) -> (res: Result<VuOverviewBlockGen2V2, ParseError>)
        ensures
            final(cursor).data() == old(cursor).data(),
            old(cursor).pos() <= final(cursor).pos(),
            final(cursor).pos() == VuOverviewBlockGen2V2::parse_end(old(cursor).data(), old(cursor).pos()),
            res is Ok <==> VuOverviewBlockGen2V2::parse_ok(old(cursor).data(), old(cursor).pos()),
            res matches Ok(v) ==> VuOverviewBlockGen2V2::parsed_as(old(cursor).data(), old(cursor).pos(), v),
            res matches Err(e) ==> e == VuOverviewBlockGen2V2::parse_err(old(cursor).data(), old(cursor).pos()),
    {
        let member_state_certificate_record_array = RecordArray::<CertificateGen2>::parse_dyn_size(cursor)?.into_inner();
        let vu_certificate_record_array = RecordArray::<CertificateGen2>::parse_dyn_size(cursor)?.into_inner();
        let vehicle_identification_number_record_array = RecordArray::<VehicleIdentificationNumber>::parse(cursor)?.into_inner();
        let vehicle_registration_number_record_array = RecordArray::<VehicleRegistrationNumberGen2V2>::parse(cursor)?.into_inner();
        let current_date_time_record_array = RecordArray::<TimeReal>::parse(cursor)?.into_inner();
        let vu_downloadable_period_record_array = RecordArray::<VuDownloadablePeriod>::parse(cursor)?.into_inner();
        let card_slots_status_record_array = RecordArray::<CardSlotsStatus>::parse(cursor)?.into_inner();
        let vu_download_activity_data_record_array = RecordArray::<VuDownloadActivityDataGen2>::parse(cursor)?.into_inner();
        let vu_company_locks_record_array = RecordArray::<VuCompanyLocksGen2>::parse(cursor)?.into_inner();
        let vu_control_activity_record_array = RecordArray::<VuControlActivityGen2>::parse(cursor)?.into_inner();
        let signature_record_array = RecordArray::<SignatureGen2>::parse_dyn_size(cursor)?.into_inner();
        Ok(VuOverviewBlockGen2V2 { member_state_certificate_record_array, vu_certificate_record_array, vehicle_identification_number_record_array, vehicle_registration_number_record_array, current_date_time_record_array, vu_downloadable_period_record_array, card_slots_status_record_array, vu_download_activity_data_record_array, vu_company_locks_record_array, vu_control_activity_record_array, signature_record_array })
    }
}

impl Parse for VuOverviewBlockGen2V2 {
    closed spec fn parse_ok(d: Seq<u8>, p: int) -> bool {
        let p1 = array_end(d, p);
        let p2 = array_end(d, p1);
        let p3 = array_end(d, p2);
        let p4 = array_end(d, p3);
        let p5 = array_end(d, p4);
        let p6 = array_end(d, p5);
        let p7 = array_end(d, p6);
        let p8 = array_end(d, p7);
        let p9 = array_end(d, p8);
        let p10 = array_end(d, p9);
        dyn_array_ok::<CertificateGen2>(d, p)
            && dyn_array_ok::<CertificateGen2>(d, p1)
            && array_ok::<VehicleIdentificationNumber>(d, p2)
            && array_ok::<VehicleRegistrationNumberGen2V2>(d, p3)
            && array_ok::<TimeReal>(d, p4)
            && array_ok::<VuDownloadablePeriod>(d, p5)
            && array_ok::<CardSlotsStatus>(d, p6)
            && array_ok::<VuDownloadActivityDataGen2>(d, p7)
            && array_ok::<VuCompanyLocksGen2>(d, p8)
            && array_ok::<VuControlActivityGen2>(d, p9)
            && dyn_array_ok::<SignatureGen2>(d, p10)
    }

    closed spec fn parse_end(d: Seq<u8>, p: int) -> int {
        let p1 = array_end(d, p);
        let p2 = array_end(d, p1);
        let p3 = array_end(d, p2);
        let p4 = array_end(d, p3);
        let p5 = array_end(d, p4);
        let p6 = array_end(d, p5);
        let p7 = array_end(d, p6);
        let p8 = array_end(d, p7);
        let p9 = array_end(d, p8);
        let p10 = array_end(d, p9);
        let p11 = array_end(d, p10);
        if !dyn_array_ok::<CertificateGen2>(d, p) {
            p1
        } else if !dyn_array_ok::<CertificateGen2>(d, p1) {
            p2
        } else if !array_ok::<VehicleIdentificationNumber>(d, p2) {
            p3
        } else if !array_ok::<VehicleRegistrationNumberGen2V2>(d, p3) {
            p4
        } else if !array_ok::<TimeReal>(d, p4) {
            p5
        } else if !array_ok::<VuDownloadablePeriod>(d, p5) {
            p6
        } else if !array_ok::<CardSlotsStatus>(d, p6) {
            p7
        } else if !array_ok::<VuDownloadActivityDataGen2>(d, p7) {
            p8
        } else if !array_ok::<VuCompanyLocksGen2>(d, p8) {
            p9
        } else if !array_ok::<VuControlActivityGen2>(d, p9) {
            p10
        } else if !dyn_array_ok::<SignatureGen2>(d, p10) {
            p11
        } else {
            p11
        }
    }

    closed spec fn parsed_as(d: Seq<u8>, p: int, v: VuOverviewBlockGen2V2) -> bool {
        let p1 = array_end(d, p);
        let p2 = array_end(d, p1);
        let p3 = array_end(d, p2);
        let p4 = array_end(d, p3);
        let p5 = array_end(d, p4);
        let p6 = array_end(d, p5);
        let p7 = array_end(d, p6);
        let p8 = array_end(d, p7);
        let p9 = array_end(d, p8);
        let p10 = array_end(d, p9);
        dyn_array_as::<CertificateGen2>(d, p, v.member_state_certificate_record_array@)
            && dyn_array_as::<CertificateGen2>(d, p1, v.vu_certificate_record_array@)
            && array_as::<VehicleIdentificationNumber>(d, p2, v.vehicle_identification_number_record_array@)
            && array_as::<VehicleRegistrationNumberGen2V2>(d, p3, v.vehicle_registration_number_record_array@)
            && array_as::<TimeReal>(d, p4, v.current_date_time_record_array@)
            && array_as::<VuDownloadablePeriod>(d, p5, v.vu_downloadable_period_record_array@)
            && array_as::<CardSlotsStatus>(d, p6, v.card_slots_status_record_array@)
            && array_as::<VuDownloadActivityDataGen2>(d, p7, v.vu_download_activity_data_record_array@)
            && array_as::<VuCompanyLocksGen2>(d, p8, v.vu_company_locks_record_array@)
            && array_as::<VuControlActivityGen2>(d, p9, v.vu_control_activity_record_array@)
            && dyn_array_as::<SignatureGen2>(d, p10, v.signature_record_array@)
    }

    closed spec fn parse_err(d: Seq<u8>, p: int) -> ParseError {
        let p1 = array_end(d, p);
        let p2 = array_end(d, p1);
        let p3 = array_end(d, p2);
        let p4 = array_end(d, p3);
        let p5 = array_end(d, p4);
        let p6 = array_end(d, p5);
        let p7 = array_end(d, p6);
        let p8 = array_end(d, p7);
        let p9 = array_end(d, p8);
        let p10 = array_end(d, p9);
        if !dyn_array_ok::<CertificateGen2>(d, p) {
            dyn_array_err::<CertificateGen2>(d, p)
        } else if !dyn_array_ok::<CertificateGen2>(d, p1) {
            dyn_array_err::<CertificateGen2>(d, p1)
        } else if !array_ok::<VehicleIdentificationNumber>(d, p2) {
            array_err::<VehicleIdentificationNumber>(d, p2)
        } else if !array_ok::<VehicleRegistrationNumberGen2V2>(d, p3) {
            array_err::<VehicleRegistrationNumberGen2V2>(d, p3)
        } else if !array_ok::<TimeReal>(d, p4) {
            array_err::<TimeReal>(d, p4)
        } else if !array_ok::<VuDownloadablePeriod>(d, p5) {
            array_err::<VuDownloadablePeriod>(d, p5)
        } else if !array_ok::<CardSlotsStatus>(d, p6) {
            array_err::<CardSlotsStatus>(d, p6)
        } else if !array_ok::<VuDownloadActivityDataGen2>(d, p7) {
            array_err::<VuDownloadActivityDataGen2>(d, p7)
        } else if !array_ok::<VuCompanyLocksGen2>(d, p8) {
            array_err::<VuCompanyLocksGen2>(d, p8)
        } else if !array_ok::<VuControlActivityGen2>(d, p9) {
            array_err::<VuControlActivityGen2>(d, p9)
        } else if !dyn_array_ok::<SignatureGen2>(d, p10) {
            dyn_array_err::<SignatureGen2>(d, p10)
        } else {
            ParseError::InvalidValue
        }
    }

    fn parse(cursor: &mut Cursor) -> (res: Result<VuOverviewBlockGen2V2, ParseError>) {
        VuOverviewBlockGen2V2::parse(cursor)
    }
}

impl VuOverviewBlockGen2V2 {
    /// What reading a `VuOverviewBlockGen2V2` at position `p` of `d` means, spelled out
    /// for readers outside this module.
    pub proof fn lemma_parse_spec(d: Seq<u8>, p: int, v: VuOverviewBlockGen2V2)
        ensures
            VuOverviewBlockGen2V2::parse_ok(d, p) == ({
                let p1 = array_end(d, p);
                let p2 = array_end(d, p1);
                let p3 = array_end(d, p2);
                let p4 = array_end(d, p3);
                let p5 = array_end(d, p4);
                let p6 = array_end(d, p5);
                let p7 = array_end(d, p6);
                let p8 = array_end(d, p7);
                let p9 = array_end(d, p8);
                let p10 = array_end(d, p9);
                dyn_array_ok::<CertificateGen2>(d, p)
            && dyn_array_ok::<CertificateGen2>(d, p1)
            && array_ok::<VehicleIdentificationNumber>(d, p2)
            && array_ok::<VehicleRegistrationNumberGen2V2>(d, p3)
            && array_ok::<TimeReal>(d, p4)
            && array_ok::<VuDownloadablePeriod>(d, p5)
            && array_ok::<CardSlotsStatus>(d, p6)
            && array_ok::<VuDownloadActivityDataGen2>(d, p7)
            && array_ok::<VuCompanyLocksGen2>(d, p8)
            && array_ok::<VuControlActivityGen2>(d, p9)
            && dyn_array_ok::<SignatureGen2>(d, p10)
            }),
            VuOverviewBlockGen2V2::parse_end(d, p) == ({
                let p1 = array_end(d, p);
                let p2 = array_end(d, p1);
                let p3 = array_end(d, p2);
                let p4 = array_end(d, p3);
                let p5 = array_end(d, p4);
                let p6 = array_end(d, p5);
                let p7 = array_end(d, p6);
                let p8 = array_end(d, p7);
                let p9 = array_end(d, p8);
                let p10 = array_end(d, p9);
                let p11 = array_end(d, p10);
                if !dyn_array_ok::<CertificateGen2>(d, p) {
            p1
        } else if !dyn_array_ok::<CertificateGen2>(d, p1) {
            p2
        } else if !array_ok::<VehicleIdentificationNumber>(d, p2) {
            p3
        } else if !array_ok::<VehicleRegistrationNumberGen2V2>(d, p3) {
            p4
        } else if !array_ok::<TimeReal>(d, p4) {
            p5
        } else if !array_ok::<VuDownloadablePeriod>(d, p5) {
            p6
        } else if !array_ok::<CardSlotsStatus>(d, p6) {
            p7
        } else if !array_ok::<VuDownloadActivityDataGen2>(d, p7) {
            p8
        } else if !array_ok::<VuCompanyLocksGen2>(d, p8) {
            p9
        } else if !array_ok::<VuControlActivityGen2>(d, p9) {
            p10
        } else if !dyn_array_ok::<SignatureGen2>(d, p10) {
            p11
        } else {
            p11
        }
            }),
            VuOverviewBlockGen2V2::parsed_as(d, p, v) == ({
                let p1 = array_end(d, p);
                let p2 = array_end(d, p1);
                let p3 = array_end(d, p2);
                let p4 = array_end(d, p3);
                let p5 = array_end(d, p4);
                let p6 = array_end(d, p5);
                let p7 = array_end(d, p6);
                let p8 = array_end(d, p7);
                let p9 = array_end(d, p8);
                let p10 = array_end(d, p9);
                dyn_array_as::<CertificateGen2>(d, p, v.member_state_certificate_record_array@)
            && dyn_array_as::<CertificateGen2>(d, p1, v.vu_certificate_record_array@)
            && array_as::<VehicleIdentificationNumber>(d, p2, v.vehicle_identification_number_record_array@)
            && array_as::<VehicleRegistrationNumberGen2V2>(d, p3, v.vehicle_registration_number_record_array@)
            && array_as::<TimeReal>(d, p4, v.current_date_time_record_array@)
            && array_as::<VuDownloadablePeriod>(d, p5, v.vu_downloadable_period_record_array@)
            && array_as::<CardSlotsStatus>(d, p6, v.card_slots_status_record_array@)
            && array_as::<VuDownloadActivityDataGen2>(d, p7, v.vu_download_activity_data_record_array@)
            && array_as::<VuCompanyLocksGen2>(d, p8, v.vu_company_locks_record_array@)
            && array_as::<VuControlActivityGen2>(d, p9, v.vu_control_activity_record_array@)
            && dyn_array_as::<SignatureGen2>(d, p10, v.signature_record_array@)
            }),
            VuOverviewBlockGen2V2::parse_err(d, p) == ({
                let p1 = array_end(d, p);
                let p2 = array_end(d, p1);
                let p3 = array_end(d, p2);
                let p4 = array_end(d, p3);
                let p5 = array_end(d, p4);
                let p6 = array_end(d, p5);
                let p7 = array_end(d, p6);
                let p8 = array_end(d, p7);
                let p9 = array_end(d, p8);
                let p10 = array_end(d, p9);
                if !dyn_array_ok::<CertificateGen2>(d, p) {
            dyn_array_err::<CertificateGen2>(d, p)
        } else if !dyn_array_ok::<CertificateGen2>(d, p1) {
            dyn_array_err::<CertificateGen2>(d, p1)
        } else if !array_ok::<VehicleIdentificationNumber>(d, p2) {
            array_err::<VehicleIdentificationNumber>(d, p2)
        } else if !array_ok::<VehicleRegistrationNumberGen2V2>(d, p3) {
            array_err::<VehicleRegistrationNumberGen2V2>(d, p3)
        } else if !array_ok::<TimeReal>(d, p4) {
            array_err::<TimeReal>(d, p4)
        } else if !array_ok::<VuDownloadablePeriod>(d, p5) {
            array_err::<VuDownloadablePeriod>(d, p5)
        } else if !array_ok::<CardSlotsStatus>(d, p6) {
            array_err::<CardSlotsStatus>(d, p6)
        } else if !array_ok::<VuDownloadActivityDataGen2>(d, p7) {
            array_err::<VuDownloadActivityDataGen2>(d, p7)
        } else if !array_ok::<VuCompanyLocksGen2>(d, p8) {
            array_err::<VuCompanyLocksGen2>(d, p8)
        } else if !array_ok::<VuControlActivityGen2>(d, p9) {
            array_err::<VuControlActivityGen2>(d, p9)
        } else if !dyn_array_ok::<SignatureGen2>(d, p10) {
            dyn_array_err::<SignatureGen2>(d, p10)
        } else {
            ParseError::InvalidValue
        }
            }),
    {
    }
}

/// LengthOfFollowingData (appendix 2.89a).
pub type LengthOfFollowingData = u16;

/// NoOfBorderCrossingRecords (appendix 2.101a).
pub type NoOfBorderCrossingRecords = u16;

/// NoOfLoadUnloadRecords (appendix 2.111a).
pub type NoOfLoadUnloadRecords = u16;

/// NoOfLoadTypeEntryRecords (appendix 2.111b).
pub type NoOfLoadTypeEntryRecords = u16;

/// VuConfigurationLengthRange (appendix 2.185b).
pub type VuConfigurationLengthRange = u16;

/// NoOfGNSSAdRecords (appendix 2.111).
pub type NoOfGNSSAdRecords = u16;

/// The part of DriverCardApplicationIdentification (appendix 2.61) that version 2 adds.
#[derive(Debug)]
pub struct DriverCardApplicationIdentificationGen2V2 {
    pub length_of_following_data: u16,
    pub no_of_border_crossing_records: u16,
    pub no_of_load_unload_records: u16,
    pub no_of_load_type_entry_records: u16,
    pub vu_configuration_length_range: u16,
}

impl DriverCardApplicationIdentificationGen2V2 {
    /// Reads a `DriverCardApplicationIdentificationGen2V2` at the reader's position.
    pub fn parse(cursor: &mut Cursor) -> (res: Result<DriverCardApplicationIdentificationGen2V2, ParseError>)
        ensures
            final(cursor).data() == old(cursor).data(),
            old(cursor).pos() <= final(cursor).pos(),
            final(cursor).pos() == DriverCardApplicationIdentificationGen2V2::parse_end(old(cursor).data(), old(cursor).pos()),
            res is Ok <==> DriverCardApplicationIdentificationGen2V2::parse_ok(old(cursor).data(), old(cursor).pos()),
            res matches Ok(v) ==> DriverCardApplicationIdentificationGen2V2::parsed_as(old(cursor).data(), old(cursor).pos(), v),
            res matches Err(e) ==> e == DriverCardApplicationIdentificationGen2V2::parse_err(old(cursor).data(), old(cursor).pos()),
    {
        let length_of_following_data = u16::parse(cursor)?;
        let no_of_border_crossing_records = u16::parse(cursor)?;
        let no_of_load_unload_records = u16::parse(cursor)?;
        let no_of_load_type_entry_records = u16::parse(cursor)?;
        let vu_configuration_length_range = u16::parse(cursor)?;
        Ok(DriverCardApplicationIdentificationGen2V2 { length_of_following_data, no_of_border_crossing_records, no_of_load_unload_records, no_of_load_type_entry_records, vu_configuration_length_range })
    }
}

impl Parse for DriverCardApplicationIdentificationGen2V2 {
    open spec fn parse_ok(d: Seq<u8>, p: int) -> bool {
        let p1 = u16::parse_end(d, p);
        let p2 = u16::parse_end(d, p1);
        let p3 = u16::parse_end(d, p2);
        let p4 = u16::parse_end(d, p3);
        u16::parse_ok(d, p)
            && u16::parse_ok(d, p1)
            && u16::parse_ok(d, p2)
            && u16::parse_ok(d, p3)
            && u16::parse_ok(d, p4)
    }

    open spec fn parse_end(d: Seq<u8>, p: int) -> int {
        let p1 = u16::parse_end(d, p);
        let p2 = u16::parse_end(d, p1);
        let p3 = u16::parse_end(d, p2);
        let p4 = u16::parse_end(d, p3);
        let p5 = u16::parse_end(d, p4);
        if !u16::parse_ok(d, p) {
            p1
        } else if !u16::parse_ok(d, p1) {
            p2
        } else if !u16::parse_ok(d, p2) {
            p3
        } else if !u16::parse_ok(d, p3) {
            p4
        } else if !u16::parse_ok(d, p4) {
            p5
        } else {
            p5
        }
    }

    open spec fn parsed_as(d: Seq<u8>, p: int, v: DriverCardApplicationIdentificationGen2V2) -> bool {
        let p1 = u16::parse_end(d, p);
        let p2 = u16::parse_end(d, p1);
        let p3 = u16::parse_end(d, p2);
        let p4 = u16::parse_end(d, p3);
        u16::parsed_as(d, p, v.length_of_following_data)
            && u16::parsed_as(d, p1, v.no_of_border_crossing_records)
            && u16::parsed_as(d, p2, v.no_of_load_unload_records)
            && u16::parsed_as(d, p3, v.no_of_load_type_entry_records)
            && u16::parsed_as(d, p4, v.vu_configuration_length_range)
    }

    open spec fn parse_err(d: Seq<u8>, p: int) -> ParseError {
        let p1 = u16::parse_end(d, p);
        let p2 = u16::parse_end(d, p1);
        let p3 = u16::parse_end(d, p2);
        let p4 = u16::parse_end(d, p3);
        if !u16::parse_ok(d, p) {
            u16::parse_err(d, p)
        } else if !u16::parse_ok(d, p1) {
            u16::parse_err(d, p1)
        } else if !u16::parse_ok(d, p2) {
            u16::parse_err(d, p2)
        } else if !u16::parse_ok(d, p3) {
            u16::parse_err(d, p3)
        } else if !u16::parse_ok(d, p4) {
            u16::parse_err(d, p4)
        } else {
            ParseError::InvalidValue
        }
    }

    fn parse(cursor: &mut Cursor) -> (res: Result<DriverCardApplicationIdentificationGen2V2, ParseError>) {
        DriverCardApplicationIdentificationGen2V2::parse(cursor)
    }
}

/// PositionAuthenticationStatus (appendix 2.117a).
#[derive(Debug, Clone, Copy, PartialEq, Eq, Structural)]
pub enum PositionAuthenticationStatus {
    NotAuthenticated,
    Authenticated,
    RFU,
}

impl PositionAuthenticationStatus {
    /// The value that the byte `b` encodes, if any.
    pub open spec fn from_byte(b: u8) -> Option<PositionAuthenticationStatus> {
        if b == 0x00 {
            Some(PositionAuthenticationStatus::NotAuthenticated)
        } else if b == 0x01 {
            Some(PositionAuthenticationStatus::Authenticated)
        } else {
            Some(PositionAuthenticationStatus::RFU)
        }
    }

    /// Decodes one byte.
    pub fn decode(b: u8) -> (r: Option<PositionAuthenticationStatus>)
        ensures
            r == PositionAuthenticationStatus::from_byte(b),
    {
        if b == 0x00 {
            Some(PositionAuthenticationStatus::NotAuthenticated)
        } else if b == 0x01 {
            Some(PositionAuthenticationStatus::Authenticated)
        } else {
            Some(PositionAuthenticationStatus::RFU)
        }
    }
}

impl PositionAuthenticationStatus {
    /// Reads a `PositionAuthenticationStatus` at the reader's position.
    pub fn parse(cursor: &mut Cursor) -> (res: Result<PositionAuthenticationStatus, ParseError>)
        ensures
            final(cursor).data() == old(cursor).data(),
            old(cursor).pos() <= final(cursor).pos(),
            final(cursor).pos() == PositionAuthenticationStatus::parse_end(old(cursor).data(), old(cursor).pos()),
            res is Ok <==> PositionAuthenticationStatus::parse_ok(old(cursor).data(), old(cursor).pos()),
            res matches Ok(v) ==> PositionAuthenticationStatus::parsed_as(old(cursor).data(), old(cursor).pos(), v),
            res matches Err(e) ==> e == PositionAuthenticationStatus::parse_err(old(cursor).data(), old(cursor).pos()),
    {
        let b = cursor.read_u8()?;
        match PositionAuthenticationStatus::decode(b) {
            Some(v) => Ok(v),
            None => Err(ParseError::InvalidValue),
        }
    }
}

impl Parse for PositionAuthenticationStatus {
    open spec fn parse_ok(d: Seq<u8>, p: int) -> bool {
        bytes_ok(d, p, 1) && PositionAuthenticationStatus::from_byte(d[p]) is Some
    }

    open spec fn parse_end(d: Seq<u8>, p: int) -> int {
        bytes_end(d, p, 1)
    }

    open spec fn parse_err(d: Seq<u8>, p: int) -> ParseError {
        if !bytes_ok(d, p, 1) {
            ParseError::UnexpectedEnd
        } else {
            ParseError::InvalidValue
        }
    }

    open spec fn parsed_as(d: Seq<u8>, p: int, v: PositionAuthenticationStatus) -> bool {
        PositionAuthenticationStatus::from_byte(d[p]) == Some(v)
    }

    fn parse(cursor: &mut Cursor) -> (res: Result<PositionAuthenticationStatus, ParseError>) {
        PositionAuthenticationStatus::parse(cursor)
    }
}

/// PlaceAuthStatusRecord (appendix 2.116b): five bytes.
#[derive(Debug)]
pub struct PlaceAuthStatusRecord {
    pub entry_time: TimeReal,
    pub authentication_status: PositionAuthenticationStatus,
}

impl PlaceAuthStatusRecord {
    /// The number of bytes of a PlaceAuthStatusRecord.
    pub const SIZE: usize = 5;

    /// The fields can be read from position `p` of `d`.
    pub open spec fn fields_ok(d: Seq<u8>, p: int) -> bool {
        let p1 = TimeReal::parse_end(d, p);
        TimeReal::parse_ok(d, p)
            && PositionAuthenticationStatus::parse_ok(d, p1)
    }

    /// The error of a read of the fields from position `p` of `d` that fails.
    pub open spec fn fields_err(d: Seq<u8>, p: int) -> ParseError {
        let p1 = TimeReal::parse_end(d, p);
        if !TimeReal::parse_ok(d, p) {
            TimeReal::parse_err(d, p)
        } else if !PositionAuthenticationStatus::parse_ok(d, p1) {
            PositionAuthenticationStatus::parse_err(d, p1)
        } else {
            ParseError::InvalidValue
        }
    }

    /// `v` holds the fields read from position `p` of `d`.
    pub open spec fn fields_as(d: Seq<u8>, p: int, v: PlaceAuthStatusRecord) -> bool {
        let p1 = TimeReal::parse_end(d, p);
        TimeReal::parsed_as(d, p, v.entry_time)
            && PositionAuthenticationStatus::parsed_as(d, p1, v.authentication_status)
    }
}

impl PlaceAuthStatusRecord {
    /// Reads a `PlaceAuthStatusRecord` at the reader's position.
    pub fn parse(cursor: &mut Cursor) -> (res: Result<PlaceAuthStatusRecord, ParseError>)
        ensures
            final(cursor).data() == old(cursor).data(),
            old(cursor).pos() <= final(cursor).pos(),
            final(cursor).pos() == PlaceAuthStatusRecord::parse_end(old(cursor).data(), old(cursor).pos()),
            res is Ok <==> PlaceAuthStatusRecord::parse_ok(old(cursor).data(), old(cursor).pos()),
            res matches Ok(v) ==> PlaceAuthStatusRecord::parsed_as(old(cursor).data(), old(cursor).pos(), v),
            res matches Err(e) ==> e == PlaceAuthStatusRecord::parse_err(old(cursor).data(), old(cursor).pos()),
    {
        let mut inner = cursor.take_exact(5)?;
        let entry_time = TimeReal::parse(&mut inner)?;
        let authentication_status = PositionAuthenticationStatus::parse(&mut inner)?;
        Ok(PlaceAuthStatusRecord { entry_time, authentication_status })
    }
}

impl Parse for PlaceAuthStatusRecord {
    open spec fn parse_ok(d: Seq<u8>, p: int) -> bool {
        bytes_ok(d, p, 5) && PlaceAuthStatusRecord::fields_ok(d.subrange(p, p + 5), 0)
    }

    open spec fn parse_end(d: Seq<u8>, p: int) -> int {
        bytes_end(d, p, 5)
    }

    open spec fn parsed_as(d: Seq<u8>, p: int, v: PlaceAuthStatusRecord) -> bool {
        PlaceAuthStatusRecord::fields_as(d.subrange(p, p + 5), 0, v)
    }

    open spec fn parse_err(d: Seq<u8>, p: int) -> ParseError {
        if !bytes_ok(d, p, 5) {
            ParseError::UnexpectedEnd
        } else {
            PlaceAuthStatusRecord::fields_err(d.subrange(p, p + 5), 0)
        }
    }

    fn parse(cursor: &mut Cursor) -> (res: Result<PlaceAuthStatusRecord, ParseError>) {
        PlaceAuthStatusRecord::parse(cursor)
    }
}

/// CardPlaceAuthDailyWorkPeriod (appendix 2.26a): its bytes hold the newest-record pointer and then five-byte slots, read up to the first that does not read.
#[derive(Debug)]
pub struct CardPlacesAuthDailyWorkPeriod {
    pub place_auth_pointer_newest_record: u16,
    pub place_auth_status_records: Vec<PlaceAuthStatusRecord>,
}

impl CardPlacesAuthDailyWorkPeriod {
    /// Reads a `CardPlacesAuthDailyWorkPeriod` of `size` bytes at the reader's position.
    pub fn parse_dyn_size(cursor: &mut Cursor, size: usize) -> (res: Result<CardPlacesAuthDailyWorkPeriod, ParseError>)
        ensures
            final(cursor).data() == old(cursor).data(),
            old(cursor).pos() <= final(cursor).pos(),
            final(cursor).pos() == CardPlacesAuthDailyWorkPeriod::dyn_end(old(cursor).data(), old(cursor).pos(), size as int),
            res is Ok <==> CardPlacesAuthDailyWorkPeriod::dyn_ok(old(cursor).data(), old(cursor).pos(), size as int),
            res matches Ok(v) ==> CardPlacesAuthDailyWorkPeriod::dyn_as(old(cursor).data(), old(cursor).pos(), size as int, v),
            res matches Err(e) ==> e == CardPlacesAuthDailyWorkPeriod::dyn_err(old(cursor).data(), old(cursor).pos(), size as int),
    {
        let mut inner = cursor.take_exact(size)?;
        let place_auth_pointer_newest_record = inner.read_u16_be()?;
        let place_auth_status_records = parse_until_failure::<PlaceAuthStatusRecord>(&mut inner, (size - 2) / 5);
        Ok(CardPlacesAuthDailyWorkPeriod { place_auth_pointer_newest_record, place_auth_status_records })
    }
}

impl ParseDyn for CardPlacesAuthDailyWorkPeriod {
    open spec fn dyn_ok(d: Seq<u8>, p: int, size: int) -> bool {
        bytes_ok(d, p, size) && size >= 2
    }

    open spec fn dyn_end(d: Seq<u8>, p: int, size: int) -> int {
        bytes_end(d, p, size)
    }

    open spec fn dyn_err(d: Seq<u8>, p: int, size: int) -> ParseError {
        ParseError::UnexpectedEnd
    }

    open spec fn dyn_as(d: Seq<u8>, p: int, size: int, v: CardPlacesAuthDailyWorkPeriod) -> bool {
        let w = d.subrange(p, p + size);
        let n = ((size - 2) / 5) as nat;
        &&& v.place_auth_pointer_newest_record == be16(w, 0)
        &&& values_at(
            w,
            attempt_positions::<PlaceAuthStatusRecord>(w, 2, leading_successes::<PlaceAuthStatusRecord>(w, 2, n)),
            v.place_auth_status_records@,
        )
    }

    fn parse_dyn_size(cursor: &mut Cursor, size: usize) -> (res: Result<CardPlacesAuthDailyWorkPeriod, ParseError>) {
        CardPlacesAuthDailyWorkPeriod::parse_dyn_size(cursor, size)
    }
}

/// GNSSAuthStatusADRecord (appendix 2.79b): five bytes.
#[derive(Debug)]
pub struct GNSSAuthStatusADRecord {
    pub time_stamp: TimeReal,
    pub authentication_status: PositionAuthenticationStatus,
}

impl GNSSAuthStatusADRecord {
    /// The number of bytes of a GNSSAuthStatusADRecord.
    pub const SIZE: usize = 5;

    /// The fields can be read from position `p` of `d`.
    pub open spec fn fields_ok(d: Seq<u8>, p: int) -> bool {
        let p1 = TimeReal::parse_end(d, p);
        TimeReal::parse_ok(d, p)
            && PositionAuthenticationStatus::parse_ok(d, p1)
    }

    /// The error of a read of the fields from position `p` of `d` that fails.
    pub open spec fn fields_err(d: Seq<u8>, p: int) -> ParseError {
        let p1 = TimeReal::parse_end(d, p);
        if !TimeReal::parse_ok(d, p) {
            TimeReal::parse_err(d, p)
        } else if !PositionAuthenticationStatus::parse_ok(d, p1) {
            PositionAuthenticationStatus::parse_err(d, p1)
        } else {
            ParseError::InvalidValue
        }
    }

    /// `v` holds the fields read from position `p` of `d`.
    pub open spec fn fields_as(d: Seq<u8>, p: int, v: GNSSAuthStatusADRecord) -> bool {
        let p1 = TimeReal::parse_end(d, p);
        TimeReal::parsed_as(d, p, v.time_stamp)
            && PositionAuthenticationStatus::parsed_as(d, p1, v.authentication_status)
    }
}

impl GNSSAuthStatusADRecord {
    /// Reads a `GNSSAuthStatusADRecord` at the reader's position.
    pub fn parse(cursor: &mut Cursor) -> (res: Result<GNSSAuthStatusADRecord, ParseError>)
        ensures
            final(cursor).data() == old(cursor).data(),
            old(cursor).pos() <= final(cursor).pos(),
            final(cursor).pos() == GNSSAuthStatusADRecord::parse_end(old(cursor).data(), old(cursor).pos()),
            res is Ok <==> GNSSAuthStatusADRecord::parse_ok(old(cursor).data(), old(cursor).pos()),
            res matches Ok(v) ==> GNSSAuthStatusADRecord::parsed_as(old(cursor).data(), old(cursor).pos(), v),
            res matches Err(e) ==> e == GNSSAuthStatusADRecord::parse_err(old(cursor).data(), old(cursor).pos()),
    {
        let mut inner = cursor.take_exact(5)?;
        let time_stamp = TimeReal::parse(&mut inner)?;
        let authentication_status = PositionAuthenticationStatus::parse(&mut inner)?;
        Ok(GNSSAuthStatusADRecord { time_stamp, authentication_status })
    }
}

impl Parse for GNSSAuthStatusADRecord {
    open spec fn parse_ok(d: Seq<u8>, p: int) -> bool {
        bytes_ok(d, p, 5) && GNSSAuthStatusADRecord::fields_ok(d.subrange(p, p + 5), 0)
    }

    open spec fn parse_end(d: Seq<u8>, p: int) -> int {
        bytes_end(d, p, 5)
    }

    open spec fn parsed_as(d: Seq<u8>, p: int, v: GNSSAuthStatusADRecord) -> bool {
        GNSSAuthStatusADRecord::fields_as(d.subrange(p, p + 5), 0, v)
    }

    open spec fn parse_err(d: Seq<u8>, p: int) -> ParseError {
        if !bytes_ok(d, p, 5) {
            ParseError::UnexpectedEnd
        } else {
            GNSSAuthStatusADRecord::fields_err(d.subrange(p, p + 5), 0)
        }
    }

    fn parse(cursor: &mut Cursor) -> (res: Result<GNSSAuthStatusADRecord, ParseError>) {
        GNSSAuthStatusADRecord::parse(cursor)
    }
}

/// GNSSAuthAccumulatedDriving (appendix 2.79a): the newest-record pointer and then five-byte slots, read up to the first that does not read.
#[derive(Debug)]
pub struct GNSSAuthAccumulatedDriving {
    pub gnss_auth_ad_pointer_newest_record: u16,
    pub gnss_auth_status_ad_records: Vec<GNSSAuthStatusADRecord>,
}

impl GNSSAuthAccumulatedDriving {
    /// Reads a `GNSSAuthAccumulatedDriving` of `size` bytes at the reader's position.
    pub fn parse_dyn_size(cursor: &mut Cursor, size: usize) -> (res: Result<GNSSAuthAccumulatedDriving, ParseError>)
        ensures
            final(cursor).data() == old(cursor).data(),
            old(cursor).pos() <= final(cursor).pos(),
            final(cursor).pos() == GNSSAuthAccumulatedDriving::dyn_end(old(cursor).data(), old(cursor).pos(), size as int),
            res is Ok <==> GNSSAuthAccumulatedDriving::dyn_ok(old(cursor).data(), old(cursor).pos(), size as int),
            res matches Ok(v) ==> GNSSAuthAccumulatedDriving::dyn_as(old(cursor).data(), old(cursor).pos(), size as int, v),
            res matches Err(e) ==> e == GNSSAuthAccumulatedDriving::dyn_err(old(cursor).data(), old(cursor).pos(), size as int),
    {
        let mut inner = cursor.take_exact(size)?;
        let gnss_auth_ad_pointer_newest_record = inner.read_u16_be()?;
        let gnss_auth_status_ad_records = parse_until_failure::<GNSSAuthStatusADRecord>(&mut inner, (size - 2) / 5);
        Ok(GNSSAuthAccumulatedDriving { gnss_auth_ad_pointer_newest_record, gnss_auth_status_ad_records })
    }
}

impl ParseDyn for GNSSAuthAccumulatedDriving {
    open spec fn dyn_ok(d: Seq<u8>, p: int, size: int) -> bool {
        bytes_ok(d, p, size) && size >= 2
    }

    open spec fn dyn_end(d: Seq<u8>, p: int, size: int) -> int {
        bytes_end(d, p, size)
    }

    open spec fn dyn_err(d: Seq<u8>, p: int, size: int) -> ParseError {
        ParseError::UnexpectedEnd
    }

    open spec fn dyn_as(d: Seq<u8>, p: int, size: int, v: GNSSAuthAccumulatedDriving) -> bool {
        let w = d.subrange(p, p + size);
        let n = ((size - 2) / 5) as nat;
        &&& v.gnss_auth_ad_pointer_newest_record == be16(w, 0)
        &&& values_at(
            w,
            attempt_positions::<GNSSAuthStatusADRecord>(w, 2, leading_successes::<GNSSAuthStatusADRecord>(w, 2, n)),
            v.gnss_auth_status_ad_records@,
        )
    }

    fn parse_dyn_size(cursor: &mut Cursor, size: usize) -> (res: Result<GNSSAuthAccumulatedDriving, ParseError>) {
        GNSSAuthAccumulatedDriving::parse_dyn_size(cursor, size)
    }
}

/// GNSSPlaceAuthRecord (appendix 2.79c): twelve bytes.
#[derive(Debug)]
pub struct GNSSPlaceAuthRecord {
    pub time_stamp: TimeReal,
    pub gnss_accuracy: GNSSAccuracyGen2,
    pub gnss_coordinates: GeoCoordinatesGen2,
    pub authentication_status: PositionAuthenticationStatus,
}

impl GNSSPlaceAuthRecord {
    /// Reads a `GNSSPlaceAuthRecord` at the reader's position.
    pub fn parse(cursor: &mut Cursor) -> (res: Result<GNSSPlaceAuthRecord, ParseError>)
        ensures
            final(cursor).data() == old(cursor).data(),
            old(cursor).pos() <= final(cursor).pos(),
            final(cursor).pos() == GNSSPlaceAuthRecord::parse_end(old(cursor).data(), old(cursor).pos()),
            res is Ok <==> GNSSPlaceAuthRecord::parse_ok(old(cursor).data(), old(cursor).pos()),
            res matches Ok(v) ==> GNSSPlaceAuthRecord::parsed_as(old(cursor).data(), old(cursor).pos(), v),
            res matches Err(e) ==> e == GNSSPlaceAuthRecord::parse_err(old(cursor).data(), old(cursor).pos()),
    {
        let time_stamp = TimeReal::parse(cursor)?;
        let gnss_accuracy = GNSSAccuracyGen2::parse(cursor)?;
        let gnss_coordinates = GeoCoordinatesGen2::parse(cursor)?;
        let authentication_status = PositionAuthenticationStatus::parse(cursor)?;
        Ok(GNSSPlaceAuthRecord { time_stamp, gnss_accuracy, gnss_coordinates, authentication_status })
    }
}

impl Parse for GNSSPlaceAuthRecord {
    open spec fn parse_ok(d: Seq<u8>, p: int) -> bool {
        let p1 = TimeReal::parse_end(d, p);
        let p2 = GNSSAccuracyGen2::parse_end(d, p1);
        let p3 = GeoCoordinatesGen2::parse_end(d, p2);
        TimeReal::parse_ok(d, p)
            && GNSSAccuracyGen2::parse_ok(d, p1)
            && GeoCoordinatesGen2::parse_ok(d, p2)
            && PositionAuthenticationStatus::parse_ok(d, p3)
    }

    open spec fn parse_end(d: Seq<u8>, p: int) -> int {
        let p1 = TimeReal::parse_end(d, p);
        let p2 = GNSSAccuracyGen2::parse_end(d, p1);
        let p3 = GeoCoordinatesGen2::parse_end(d, p2);
        let p4 = PositionAuthenticationStatus::parse_end(d, p3);
        if !TimeReal::parse_ok(d, p) {
            p1
        } else if !GNSSAccuracyGen2::parse_ok(d, p1) {
            p2
        } else if !GeoCoordinatesGen2::parse_ok(d, p2) {
            p3
        } else if !PositionAuthenticationStatus::parse_ok(d, p3) {
            p4
        } else {
            p4
        }
    }

    open spec fn parsed_as(d: Seq<u8>, p: int, v: GNSSPlaceAuthRecord) -> bool {
        let p1 = TimeReal::parse_end(d, p);
        let p2 = GNSSAccuracyGen2::parse_end(d, p1);
        let p3 = GeoCoordinatesGen2::parse_end(d, p2);
        TimeReal::parsed_as(d, p, v.time_stamp)
            && GNSSAccuracyGen2::parsed_as(d, p1, v.gnss_accuracy)
            && GeoCoordinatesGen2::parsed_as(d, p2, v.gnss_coordinates)
            && PositionAuthenticationStatus::parsed_as(d, p3, v.authentication_status)
    }

    open spec fn parse_err(d: Seq<u8>, p: int) -> ParseError {
        let p1 = TimeReal::parse_end(d, p);
        let p2 = GNSSAccuracyGen2::parse_end(d, p1);
        let p3 = GeoCoordinatesGen2::parse_end(d, p2);
        if !TimeReal::parse_ok(d, p) {
            TimeReal::parse_err(d, p)
        } else if !GNSSAccuracyGen2::parse_ok(d, p1) {
            GNSSAccuracyGen2::parse_err(d, p1)
        } else if !GeoCoordinatesGen2::parse_ok(d, p2) {
            GeoCoordinatesGen2::parse_err(d, p2)
        } else if !PositionAuthenticationStatus::parse_ok(d, p3) {
            PositionAuthenticationStatus::parse_err(d, p3)
        } else {
            ParseError::InvalidValue
        }
    }

    fn parse(cursor: &mut Cursor) -> (res: Result<GNSSPlaceAuthRecord, ParseError>) {
        GNSSPlaceAuthRecord::parse(cursor)
    }
}

/// CardBorderCrossingRecord (appendix 2.11a): 17 bytes.
#[derive(Debug)]
pub struct CardBorderCrossingRecord {
    pub country_left: NationNumeric,
    pub country_entered: NationNumeric,
    pub gnss_place_auth_record: GNSSPlaceAuthRecord,
    pub vehicle_odometer_value: OdometerShort,
}

impl CardBorderCrossingRecord {
    /// The number of bytes of a CardBorderCrossingRecord.
    pub const SIZE: usize = 17;

    /// The fields can be read from position `p` of `d`.
    pub open spec fn fields_ok(d: Seq<u8>, p: int) -> bool {
        let p1 = NationNumeric::parse_end(d, p);
        let p2 = NationNumeric::parse_end(d, p1);
        let p3 = GNSSPlaceAuthRecord::parse_end(d, p2);
        NationNumeric::parse_ok(d, p)
            && NationNumeric::parse_ok(d, p1)
            && GNSSPlaceAuthRecord::parse_ok(d, p2)
            && OdometerShort::parse_ok(d, p3)
    }

    /// The error of a read of the fields from position `p` of `d` that fails.
    pub open spec fn fields_err(d: Seq<u8>, p: int) -> ParseError {
        let p1 = NationNumeric::parse_end(d, p);
        let p2 = NationNumeric::parse_end(d, p1);
        let p3 = GNSSPlaceAuthRecord::parse_end(d, p2);
        if !NationNumeric::parse_ok(d, p) {
            NationNumeric::parse_err(d, p)
        } else if !NationNumeric::parse_ok(d, p1) {
            NationNumeric::parse_err(d, p1)
        } else if !GNSSPlaceAuthRecord::parse_ok(d, p2) {
            GNSSPlaceAuthRecord::parse_err(d, p2)
        } else if !OdometerShort::parse_ok(d, p3) {
            OdometerShort::parse_err(d, p3)
        } else {
            ParseError::InvalidValue
        }
    }

    /// `v` holds the fields read from position `p` of `d`.
    pub open spec fn fields_as(d: Seq<u8>, p: int, v: CardBorderCrossingRecord) -> bool {
        let p1 = NationNumeric::parse_end(d, p);
        let p2 = NationNumeric::parse_end(d, p1);
        let p3 = GNSSPlaceAuthRecord::parse_end(d, p2);
        NationNumeric::parsed_as(d, p, v.country_left)
            && NationNumeric::parsed_as(d, p1, v.country_entered)
            && GNSSPlaceAuthRecord::parsed_as(d, p2, v.gnss_place_auth_record)
            && OdometerShort::parsed_as(d, p3, v.vehicle_odometer_value)
    }
}

impl CardBorderCrossingRecord {
    /// Reads a `CardBorderCrossingRecord` at the reader's position.
    pub fn parse(cursor: &mut Cursor) -> (res: Result<CardBorderCrossingRecord, ParseError>)
        ensures
            final(cursor).data() == old(cursor).data(),
            old(cursor).pos() <= final(cursor).pos(),
            final(cursor).pos() == CardBorderCrossingRecord::parse_end(old(cursor).data(), old(cursor).pos()),
            res is Ok <==> CardBorderCrossingRecord::parse_ok(old(cursor).data(), old(cursor).pos()),
            res matches Ok(v) ==> CardBorderCrossingRecord::parsed_as(old(cursor).data(), old(cursor).pos(), v),
            res matches Err(e) ==> e == CardBorderCrossingRecord::parse_err(old(cursor).data(), old(cursor).pos()),
    {
        let mut inner = cursor.take_exact(17)?;
        let country_left = NationNumeric::parse(&mut inner)?;
        let country_entered = NationNumeric::parse(&mut inner)?;
        let gnss_place_auth_record = GNSSPlaceAuthRecord::parse(&mut inner)?;
        let vehicle_odometer_value = OdometerShort::parse(&mut inner)?;
        Ok(CardBorderCrossingRecord { country_left, country_entered, gnss_place_auth_record, vehicle_odometer_value })
    }
}

impl Parse for CardBorderCrossingRecord {
    open spec fn parse_ok(d: Seq<u8>, p: int) -> bool {
        bytes_ok(d, p, 17) && CardBorderCrossingRecord::fields_ok(d.subrange(p, p + 17), 0)
    }

    open spec fn parse_end(d: Seq<u8>, p: int) -> int {
        bytes_end(d, p, 17)
    }

    open spec fn parsed_as(d: Seq<u8>, p: int, v: CardBorderCrossingRecord) -> bool {
        CardBorderCrossingRecord::fields_as(d.subrange(p, p + 17), 0, v)
    }

    open spec fn parse_err(d: Seq<u8>, p: int) -> ParseError {
        if !bytes_ok(d, p, 17) {
            ParseError::UnexpectedEnd
        } else {
            CardBorderCrossingRecord::fields_err(d.subrange(p, p + 17), 0)
        }
    }

    fn parse(cursor: &mut Cursor) -> (res: Result<CardBorderCrossingRecord, ParseError>) {
        CardBorderCrossingRecord::parse(cursor)
    }
}

/// CardBorderCrossings (appendix 2.11b): the newest-record pointer and then 17-byte slots, read up to the first that does not read.
#[derive(Debug)]
pub struct CardBorderCrossings {
    pub border_crossing_pointer_newest_record: u16,
    pub card_border_crossing_records: Vec<CardBorderCrossingRecord>,
}

impl CardBorderCrossings {
    /// Reads a `CardBorderCrossings` of `size` bytes at the reader's position.
    pub fn parse_dyn_size(cursor: &mut Cursor, size: usize) -> (res: Result<CardBorderCrossings, ParseError>)
        ensures
            final(cursor).data() == old(cursor).data(),
            old(cursor).pos() <= final(cursor).pos(),
            final(cursor).pos() == CardBorderCrossings::dyn_end(old(cursor).data(), old(cursor).pos(), size as int),
            res is Ok <==> CardBorderCrossings::dyn_ok(old(cursor).data(), old(cursor).pos(), size as int),
            res matches Ok(v) ==> CardBorderCrossings::dyn_as(old(cursor).data(), old(cursor).pos(), size as int, v),
            res matches Err(e) ==> e == CardBorderCrossings::dyn_err(old(cursor).data(), old(cursor).pos(), size as int),
    {
        let mut inner = cursor.take_exact(size)?;
        let border_crossing_pointer_newest_record = inner.read_u16_be()?;
        let card_border_crossing_records = parse_until_failure::<CardBorderCrossingRecord>(&mut inner, (size - 2) / 17);
        Ok(CardBorderCrossings { border_crossing_pointer_newest_record, card_border_crossing_records })
    }
}

impl ParseDyn for CardBorderCrossings {
    open spec fn dyn_ok(d: Seq<u8>, p: int, size: int) -> bool {
        bytes_ok(d, p, size) && size >= 2
    }

    open spec fn dyn_end(d: Seq<u8>, p: int, size: int) -> int {
        bytes_end(d, p, size)
    }

    open spec fn dyn_err(d: Seq<u8>, p: int, size: int) -> ParseError {
        ParseError::UnexpectedEnd
    }

    open spec fn dyn_as(d: Seq<u8>, p: int, size: int, v: CardBorderCrossings) -> bool {
        let w = d.subrange(p, p + size);
        let n = ((size - 2) / 17) as nat;
        &&& v.border_crossing_pointer_newest_record == be16(w, 0)
        &&& values_at(
            w,
            attempt_positions::<CardBorderCrossingRecord>(w, 2, leading_successes::<CardBorderCrossingRecord>(w, 2, n)),
            v.card_border_crossing_records@,
        )
    }

    fn parse_dyn_size(cursor: &mut Cursor, size: usize) -> (res: Result<CardBorderCrossings, ParseError>) {
        CardBorderCrossings::parse_dyn_size(cursor, size)
    }
}

/// OperationType (appendix 2.114a).
#[derive(Debug, Clone, Copy, PartialEq, Eq, Structural)]
pub enum OperationType {
    RFU,
    LoadOperation,
    UnloadOperation,
    SimultaneousLoadUnloadOperation,
}

impl OperationType {
    /// The value that the byte `b` encodes, if any.
    pub open spec fn from_byte(b: u8) -> Option<OperationType> {
        if b == 0x00 {
            Some(OperationType::RFU)
        } else if b == 0x01 {
            Some(OperationType::LoadOperation)
        } else if b == 0x02 {
            Some(OperationType::UnloadOperation)
        } else if b == 0x03 {
            Some(OperationType::SimultaneousLoadUnloadOperation)
        } else {
            Some(OperationType::RFU)
        }
    }

    /// Decodes one byte.
    pub fn decode(b: u8) -> (r: Option<OperationType>)
        ensures
            r == OperationType::from_byte(b),
    {
        if b == 0x00 {
            Some(OperationType::RFU)
        } else if b == 0x01 {
            Some(OperationType::LoadOperation)
        } else if b == 0x02 {
            Some(OperationType::UnloadOperation)
        } else if b == 0x03 {
            Some(OperationType::SimultaneousLoadUnloadOperation)
        } else {
            Some(OperationType::RFU)
        }
    }
}

impl OperationType {
    /// Reads a `OperationType` at the reader's position.
    pub fn parse(cursor: &mut Cursor) -> (res: Result<OperationType, ParseError>)
        ensures
            final(cursor).data() == old(cursor).data(),
            old(cursor).pos() <= final(cursor).pos(),
            final(cursor).pos() == OperationType::parse_end(old(cursor).data(), old(cursor).pos()),
            res is Ok <==> OperationType::parse_ok(old(cursor).data(), old(cursor).pos()),
            res matches Ok(v) ==> OperationType::parsed_as(old(cursor).data(), old(cursor).pos(), v),
            res matches Err(e) ==> e == OperationType::parse_err(old(cursor).data(), old(cursor).pos()),
    {
        let b = cursor.read_u8()?;
        match OperationType::decode(b) {
            Some(v) => Ok(v),
            None => Err(ParseError::InvalidValue),
        }
    }
}

impl Parse for OperationType {
    open spec fn parse_ok(d: Seq<u8>, p: int) -> bool {
        bytes_ok(d, p, 1) && OperationType::from_byte(d[p]) is Some
    }

    open spec fn parse_end(d: Seq<u8>, p: int) -> int {
        bytes_end(d, p, 1)
    }

    open spec fn parse_err(d: Seq<u8>, p: int) -> ParseError {
        if !bytes_ok(d, p, 1) {
            ParseError::UnexpectedEnd
        } else {
            ParseError::InvalidValue
        }
    }

    open spec fn parsed_as(d: Seq<u8>, p: int, v: OperationType) -> bool {
        OperationType::from_byte(d[p]) == Some(v)
    }

    fn parse(cursor: &mut Cursor) -> (res: Result<OperationType, ParseError>) {
        OperationType::parse(cursor)
    }
}

/// CardLoadUnloadRecord (appendix 2.24c): 20 bytes.
#[derive(Debug)]
pub struct CardLoadUnloadRecord {
    pub time_stamp: TimeReal,
    pub operation_type: OperationType,
    pub gnss_place_auth_record: GNSSPlaceAuthRecord,
    pub vehicle_odometer_value: OdometerShort,
}

impl CardLoadUnloadRecord {
    /// Reads a `CardLoadUnloadRecord` at the reader's position.
    pub fn parse(cursor: &mut Cursor) -> (res: Result<CardLoadUnloadRecord, ParseError>)
        ensures
            final(cursor).data() == old(cursor).data(),
            old(cursor).pos() <= final(cursor).pos(),
            final(cursor).pos() == CardLoadUnloadRecord::parse_end(old(cursor).data(), old(cursor).pos()),
            res is Ok <==> CardLoadUnloadRecord::parse_ok(old(cursor).data(), old(cursor).pos()),
            res matches Ok(v) ==> CardLoadUnloadRecord::parsed_as(old(cursor).data(), old(cursor).pos(), v),
            res matches Err(e) ==> e == CardLoadUnloadRecord::parse_err(old(cursor).data(), old(cursor).pos()),
    {
        let time_stamp = TimeReal::parse(cursor)?;
        let operation_type = OperationType::parse(cursor)?;
        let gnss_place_auth_record = GNSSPlaceAuthRecord::parse(cursor)?;
        let vehicle_odometer_value = OdometerShort::parse(cursor)?;
        Ok(CardLoadUnloadRecord { time_stamp, operation_type, gnss_place_auth_record, vehicle_odometer_value })
    }
}

impl Parse for CardLoadUnloadRecord {
    open spec fn parse_ok(d: Seq<u8>, p: int) -> bool {
        let p1 = TimeReal::parse_end(d, p);
        let p2 = OperationType::parse_end(d, p1);
        let p3 = GNSSPlaceAuthRecord::parse_end(d, p2);
        TimeReal::parse_ok(d, p)
            && OperationType::parse_ok(d, p1)
            && GNSSPlaceAuthRecord::parse_ok(d, p2)
            && OdometerShort::parse_ok(d, p3)
    }

    open spec fn parse_end(d: Seq<u8>, p: int) -> int {
        let p1 = TimeReal::parse_end(d, p);
        let p2 = OperationType::parse_end(d, p1);
        let p3 = GNSSPlaceAuthRecord::parse_end(d, p2);
        let p4 = OdometerShort::parse_end(d, p3);
        if !TimeReal::parse_ok(d, p) {
            p1
        } else if !OperationType::parse_ok(d, p1) {
            p2
        } else if !GNSSPlaceAuthRecord::parse_ok(d, p2) {
            p3
        } else if !OdometerShort::parse_ok(d, p3) {
            p4
        } else {
            p4
        }
    }

    open spec fn parsed_as(d: Seq<u8>, p: int, v: CardLoadUnloadRecord) -> bool {
        let p1 = TimeReal::parse_end(d, p);
        let p2 = OperationType::parse_end(d, p1);
        let p3 = GNSSPlaceAuthRecord::parse_end(d, p2);
        TimeReal::parsed_as(d, p, v.time_stamp)
            && OperationType::parsed_as(d, p1, v.operation_type)
            && GNSSPlaceAuthRecord::parsed_as(d, p2, v.gnss_place_auth_record)
            && OdometerShort::parsed_as(d, p3, v.vehicle_odometer_value)
    }

    open spec fn parse_err(d: Seq<u8>, p: int) -> ParseError {
        let p1 = TimeReal::parse_end(d, p);
        let p2 = OperationType::parse_end(d, p1);
        let p3 = GNSSPlaceAuthRecord::parse_end(d, p2);
        if !TimeReal::parse_ok(d, p) {
            TimeReal::parse_err(d, p)
        } else if !OperationType::parse_ok(d, p1) {
            OperationType::parse_err(d, p1)
        } else if !GNSSPlaceAuthRecord::parse_ok(d, p2) {
            GNSSPlaceAuthRecord::parse_err(d, p2)
        } else if !OdometerShort::parse_ok(d, p3) {
            OdometerShort::parse_err(d, p3)
        } else {
            ParseError::InvalidValue
        }
    }

    fn parse(cursor: &mut Cursor) -> (res: Result<CardLoadUnloadRecord, ParseError>) {
        CardLoadUnloadRecord::parse(cursor)
    }
}

/// CardLoadUnloadOperations (appendix 2.24d): the newest-record pointer and then 20-byte slots, read up to the first that does not read.
#[derive(Debug)]
pub struct CardLoadUnloadOperations {
    pub load_unload_pointer_newest_record: u16,
    pub card_load_unload_records: Vec<CardLoadUnloadRecord>,
}

impl CardLoadUnloadOperations {
    /// Reads a `CardLoadUnloadOperations` of `size` bytes at the reader's position.
    pub fn parse_dyn_size(cursor: &mut Cursor, size: usize) -> (res: Result<CardLoadUnloadOperations, ParseError>)
        ensures
            final(cursor).data() == old(cursor).data(),
            old(cursor).pos() <= final(cursor).pos(),
            final(cursor).pos() == CardLoadUnloadOperations::dyn_end(old(cursor).data(), old(cursor).pos(), size as int),
            res is Ok <==> CardLoadUnloadOperations::dyn_ok(old(cursor).data(), old(cursor).pos(), size as int),
            res matches Ok(v) ==> CardLoadUnloadOperations::dyn_as(old(cursor).data(), old(cursor).pos(), size as int, v),
            res matches Err(e) ==> e == CardLoadUnloadOperations::dyn_err(old(cursor).data(), old(cursor).pos(), size as int),
    {
        let mut inner = cursor.take_exact(size)?;
        let load_unload_pointer_newest_record = inner.read_u16_be()?;
        let card_load_unload_records = parse_until_failure::<CardLoadUnloadRecord>(&mut inner, (size - 2) / 20);
        Ok(CardLoadUnloadOperations { load_unload_pointer_newest_record, card_load_unload_records })
    }
}

impl ParseDyn for CardLoadUnloadOperations {
    open spec fn dyn_ok(d: Seq<u8>, p: int, size: int) -> bool {
        bytes_ok(d, p, size) && size >= 2
    }

    open spec fn dyn_end(d: Seq<u8>, p: int, size: int) -> int {
        bytes_end(d, p, size)
    }

    open spec fn dyn_err(d: Seq<u8>, p: int, size: int) -> ParseError {
        ParseError::UnexpectedEnd
    }

    open spec fn dyn_as(d: Seq<u8>, p: int, size: int, v: CardLoadUnloadOperations) -> bool {
        let w = d.subrange(p, p + size);
        let n = ((size - 2) / 20) as nat;
        &&& v.load_unload_pointer_newest_record == be16(w, 0)
        &&& values_at(
            w,
            attempt_positions::<CardLoadUnloadRecord>(w, 2, leading_successes::<CardLoadUnloadRecord>(w, 2, n)),
            v.card_load_unload_records@,
        )
    }

    fn parse_dyn_size(cursor: &mut Cursor, size: usize) -> (res: Result<CardLoadUnloadOperations, ParseError>) {
        CardLoadUnloadOperations::parse_dyn_size(cursor, size)
    }
}

/// LoadType (appendix 2.90a).
#[derive(Debug, Clone, Copy, PartialEq, Eq, Structural)]
pub enum LoadType {
    UndefinedLoadType,
    Goods,
    Passengers,
    RFU,
}

impl LoadType {
    /// The value that the byte `b` encodes, if any.
    pub open spec fn from_byte(b: u8) -> Option<LoadType> {
        if b == 0x00 {
            Some(LoadType::UndefinedLoadType)
        } else if b == 0x01 {
            Some(LoadType::Goods)
        } else if b == 0x02 {
            Some(LoadType::Passengers)
        } else {
            Some(LoadType::RFU)
        }
    }

    /// Decodes one byte.
    pub fn decode(b: u8) -> (r: Option<LoadType>)
        ensures
            r == LoadType::from_byte(b),
    {
        if b == 0x00 {
            Some(LoadType::UndefinedLoadType)
        } else if b == 0x01 {
            Some(LoadType::Goods)
        } else if b == 0x02 {
            Some(LoadType::Passengers)
        } else {
            Some(LoadType::RFU)
        }
    }
}

impl LoadType {
    /// Reads a `LoadType` at the reader's position.
    pub fn parse(cursor: &mut Cursor) -> (res: Result<LoadType, ParseError>)
        ensures
            final(cursor).data() == old(cursor).data(),
            old(cursor).pos() <= final(cursor).pos(),
            final(cursor).pos() == LoadType::parse_end(old(cursor).data(), old(cursor).pos()),
            res is Ok <==> LoadType::parse_ok(old(cursor).data(), old(cursor).pos()),
            res matches Ok(v) ==> LoadType::parsed_as(old(cursor).data(), old(cursor).pos(), v),
            res matches Err(e) ==> e == LoadType::parse_err(old(cursor).data(), old(cursor).pos()),
    {
        let b = cursor.read_u8()?;
        match LoadType::decode(b) {
            Some(v) => Ok(v),
            None => Err(ParseError::InvalidValue),
        }
    }
}

impl Parse for LoadType {
    open spec fn parse_ok(d: Seq<u8>, p: int) -> bool {
        bytes_ok(d, p, 1) && LoadType::from_byte(d[p]) is Some
    }

    open spec fn parse_end(d: Seq<u8>, p: int) -> int {
        bytes_end(d, p, 1)
    }

    open spec fn parse_err(d: Seq<u8>, p: int) -> ParseError {
        if !bytes_ok(d, p, 1) {
            ParseError::UnexpectedEnd
        } else {
            ParseError::InvalidValue
        }
    }

    open spec fn parsed_as(d: Seq<u8>, p: int, v: LoadType) -> bool {
        LoadType::from_byte(d[p]) == Some(v)
    }

    fn parse(cursor: &mut Cursor) -> (res: Result<LoadType, ParseError>) {
        LoadType::parse(cursor)
    }
}

/// CardLoadTypeEntryRecord (appendix 2.24b): five bytes.
#[derive(Debug)]
pub struct CardLoadTypeEntryRecord {
    pub time_stamp: TimeReal,
    pub load_type_entered: LoadType,
}

impl CardLoadTypeEntryRecord {
    /// Reads a `CardLoadTypeEntryRecord` at the reader's position.
    pub fn parse(cursor: &mut Cursor) -> (res: Result<CardLoadTypeEntryRecord, ParseError>)
        ensures
            final(cursor).data() == old(cursor).data(),
            old(cursor).pos() <= final(cursor).pos(),
            final(cursor).pos() == CardLoadTypeEntryRecord::parse_end(old(cursor).data(), old(cursor).pos()),
            res is Ok <==> CardLoadTypeEntryRecord::parse_ok(old(cursor).data(), old(cursor).pos()),
            res matches Ok(v) ==> CardLoadTypeEntryRecord::parsed_as(old(cursor).data(), old(cursor).pos(), v),
            res matches Err(e) ==> e == CardLoadTypeEntryRecord::parse_err(old(cursor).data(), old(cursor).pos()),
    {
        let time_stamp = TimeReal::parse(cursor)?;
        let load_type_entered = LoadType::parse(cursor)?;
        Ok(CardLoadTypeEntryRecord { time_stamp, load_type_entered })
    }
}

impl Parse for CardLoadTypeEntryRecord {
    open spec fn parse_ok(d: Seq<u8>, p: int) -> bool {
        let p1 = TimeReal::parse_end(d, p);
        TimeReal::parse_ok(d, p)
            && LoadType::parse_ok(d, p1)
    }

    open spec fn parse_end(d: Seq<u8>, p: int) -> int {
        let p1 = TimeReal::parse_end(d, p);
        let p2 = LoadType::parse_end(d, p1);
        if !TimeReal::parse_ok(d, p) {
            p1
        } else if !LoadType::parse_ok(d, p1) {
            p2
        } else {
            p2
        }
    }

    open spec fn parsed_as(d: Seq<u8>, p: int, v: CardLoadTypeEntryRecord) -> bool {
        let p1 = TimeReal::parse_end(d, p);
        TimeReal::parsed_as(d, p, v.time_stamp)
            && LoadType::parsed_as(d, p1, v.load_type_entered)
    }

    open spec fn parse_err(d: Seq<u8>, p: int) -> ParseError {
        let p1 = TimeReal::parse_end(d, p);
        if !TimeReal::parse_ok(d, p) {
            TimeReal::parse_err(d, p)
        } else if !LoadType::parse_ok(d, p1) {
            LoadType::parse_err(d, p1)
        } else {
            ParseError::InvalidValue
        }
    }

    fn parse(cursor: &mut Cursor) -> (res: Result<CardLoadTypeEntryRecord, ParseError>) {
        CardLoadTypeEntryRecord::parse(cursor)
    }
}

/// CardLoadTypeEntries (appendix 2.24a): the newest-record pointer and then five-byte slots, read up to the first that does not read.
#[derive(Debug)]
pub struct CardLoadTypeEntries {
    pub load_type_pointer_newest_record: u16,
    pub card_load_type_entry_records: Vec<CardLoadTypeEntryRecord>,
}

impl CardLoadTypeEntries {
    /// Reads a `CardLoadTypeEntries` of `size` bytes at the reader's position.
    pub fn parse_dyn_size(cursor: &mut Cursor, size: usize) -> (res: Result<CardLoadTypeEntries, ParseError>)
        ensures
            final(cursor).data() == old(cursor).data(),
            old(cursor).pos() <= final(cursor).pos(),
            final(cursor).pos() == CardLoadTypeEntries::dyn_end(old(cursor).data(), old(cursor).pos(), size as int),
            res is Ok <==> CardLoadTypeEntries::dyn_ok(old(cursor).data(), old(cursor).pos(), size as int),
            res matches Ok(v) ==> CardLoadTypeEntries::dyn_as(old(cursor).data(), old(cursor).pos(), size as int, v),
            res matches Err(e) ==> e == CardLoadTypeEntries::dyn_err(old(cursor).data(), old(cursor).pos(), size as int),
    {
        let mut inner = cursor.take_exact(size)?;
        let load_type_pointer_newest_record = inner.read_u16_be()?;
        let card_load_type_entry_records = parse_until_failure::<CardLoadTypeEntryRecord>(&mut inner, (size - 2) / 5);
        Ok(CardLoadTypeEntries { load_type_pointer_newest_record, card_load_type_entry_records })
    }
}

impl ParseDyn for CardLoadTypeEntries {
    open spec fn dyn_ok(d: Seq<u8>, p: int, size: int) -> bool {
        bytes_ok(d, p, size) && size >= 2
    }

    open spec fn dyn_end(d: Seq<u8>, p: int, size: int) -> int {
        bytes_end(d, p, size)
    }

    open spec fn dyn_err(d: Seq<u8>, p: int, size: int) -> ParseError {
        ParseError::UnexpectedEnd
    }

    open spec fn dyn_as(d: Seq<u8>, p: int, size: int, v: CardLoadTypeEntries) -> bool {
        let w = d.subrange(p, p + size);
        let n = ((size - 2) / 5) as nat;
        &&& v.load_type_pointer_newest_record == be16(w, 0)
        &&& values_at(
            w,
            attempt_positions::<CardLoadTypeEntryRecord>(w, 2, leading_successes::<CardLoadTypeEntryRecord>(w, 2, n)),
            v.card_load_type_entry_records@,
        )
    }

    fn parse_dyn_size(cursor: &mut Cursor, size: usize) -> (res: Result<CardLoadTypeEntries, ParseError>) {
        CardLoadTypeEntries::parse_dyn_size(cursor, size)
    }
}

/// VuConfigurations (appendix 2.185a): 3072 bytes.
#[derive(Debug)]
pub struct VuConfigurations(pub Vec<u8>);

impl VuConfigurations {
    /// Reads a `VuConfigurations` at the reader's position.
    pub fn parse(cursor: &mut Cursor) -> (res: Result<VuConfigurations, ParseError>)
        ensures
            final(cursor).data() == old(cursor).data(),
            old(cursor).pos() <= final(cursor).pos(),
            final(cursor).pos() == VuConfigurations::parse_end(old(cursor).data(), old(cursor).pos()),
            res is Ok <==> VuConfigurations::parse_ok(old(cursor).data(), old(cursor).pos()),
            res matches Ok(v) ==> VuConfigurations::parsed_as(old(cursor).data(), old(cursor).pos(), v),
            res matches Err(e) ==> e == VuConfigurations::parse_err(old(cursor).data(), old(cursor).pos()),
    {
        let value = cursor.read_bytes(3072)?;
        Ok(VuConfigurations(value))
    }
}

impl Parse for VuConfigurations {
    open spec fn parse_ok(d: Seq<u8>, p: int) -> bool {
        bytes_ok(d, p, 3072)
    }

    open spec fn parse_end(d: Seq<u8>, p: int) -> int {
        let p1 = bytes_end(d, p, 3072);
        if !bytes_ok(d, p, 3072) {
            p1
        } else {
            p1
        }
    }

    open spec fn parsed_as(d: Seq<u8>, p: int, v: VuConfigurations) -> bool {
        v.0@ == d.subrange(p, p + 3072)
    }

    open spec fn parse_err(d: Seq<u8>, p: int) -> ParseError {
        if !bytes_ok(d, p, 3072) {
            ParseError::UnexpectedEnd
        } else {
            ParseError::InvalidValue
        }
    }

    fn parse(cursor: &mut Cursor) -> (res: Result<VuConfigurations, ParseError>) {
        VuConfigurations::parse(cursor)
    }
}

/// VehicleRegistrationNumber (appendix 2.166) as version 2 stores it: a code
/// page and fourteen characters.
#[derive(Debug)]
pub struct VehicleRegistrationNumberGen2V2 {
    pub code_page: u8,
    pub vehicle_reg_number: IA5String,
}

impl VehicleRegistrationNumberGen2V2 {
    /// Reads a `VehicleRegistrationNumberGen2V2` at the reader's position.
    pub fn parse(cursor: &mut Cursor) -> (res: Result<VehicleRegistrationNumberGen2V2, ParseError>)
        ensures
            final(cursor).data() == old(cursor).data(),
            old(cursor).pos() <= final(cursor).pos(),
            final(cursor).pos() == VehicleRegistrationNumberGen2V2::parse_end(old(cursor).data(), old(cursor).pos()),
            res is Ok <==> VehicleRegistrationNumberGen2V2::parse_ok(old(cursor).data(), old(cursor).pos()),
            res matches Ok(v) ==> VehicleRegistrationNumberGen2V2::parsed_as(old(cursor).data(), old(cursor).pos(), v),
            res matches Err(e) ==> e == VehicleRegistrationNumberGen2V2::parse_err(old(cursor).data(), old(cursor).pos()),
    {
        let (code_page, vehicle_reg_number) = parse_code_page_string(cursor, 14)?;
        Ok(VehicleRegistrationNumberGen2V2 { code_page, vehicle_reg_number })
    }
}

impl Parse for VehicleRegistrationNumberGen2V2 {
    open spec fn parse_ok(d: Seq<u8>, p: int) -> bool {
        code_page_ok(d, p, 14)
    }

    open spec fn parse_end(d: Seq<u8>, p: int) -> int {
        code_page_end(d, p, 14)
    }

    open spec fn parse_err(d: Seq<u8>, p: int) -> ParseError {
        ParseError::UnexpectedEnd
    }

    open spec fn parsed_as(d: Seq<u8>, p: int, v: VehicleRegistrationNumberGen2V2) -> bool {
        code_page_as(d, p, 14, v.code_page, v.vehicle_reg_number)
    }

    fn parse(cursor: &mut Cursor) -> (res: Result<VehicleRegistrationNumberGen2V2, ParseError>) {
        VehicleRegistrationNumberGen2V2::parse(cursor)
    }
}

/// The activities block of a version 2 download (TREP 32): ten record arrays.
#[derive(Debug)]
pub struct VuActivitiesBlockGen2V2 {
    pub date_of_day_downloaded_record_array: Vec<DateOfDayDownloadedGen2>,
    pub odometer_value_midnight_record_array: Vec<OdometerValueMidnight>,
    pub vu_card_iw_record_array: Vec<VuCardIWRecordGen2>,
    pub vu_activity_daily_record_array: Vec<ActivityChangeInfo>,
    pub vu_place_daily_work_period_record_array: Vec<VuPlaceDailyWorkPeriodRecordGen2V2>,
    pub vu_gnss_ad_record_array: Vec<VuGNSSADRecordGen2V2>,
    pub vu_specific_condition_record_array: Vec<SpecificConditionRecordGen2>,
    pub vu_border_crossing_record_array: Vec<VuBorderCrossingRecord>,
    pub vu_load_unload_record_array: Vec<VuLoadUnloadRecord>,
    pub signature_record_array: Vec<SignatureGen2>,
}

impl VuActivitiesBlockGen2V2 {
    /// Reads a `VuActivitiesBlockGen2V2` at the reader's position.
    pub fn parse(cursor: &mut Cursor) -> (res: Result<VuActivitiesBlockGen2V2, ParseError>)
        ensures
            final(cursor).data() == old(cursor).data(),
            old(cursor).pos() <= final(cursor).pos(),
            final(cursor).pos() == VuActivitiesBlockGen2V2::parse_end(old(cursor).data(), old(cursor).pos()),
            res is Ok <==> VuActivitiesBlockGen2V2::parse_ok(old(cursor).data(), old(cursor).pos()),
            res matches Ok(v) ==> VuActivitiesBlockGen2V2::parsed_as(old(cursor).data(), old(cursor).pos(), v),
            res matches Err(e) ==> e == VuActivitiesBlockGen2V2::parse_err(old(cursor).data(), old(cursor).pos()),
    {
        let date_of_day_downloaded_record_array = RecordArray::<DateOfDayDownloadedGen2>::parse(cursor)?.into_inner();
        let odometer_value_midnight_record_array = RecordArray::<OdometerValueMidnight>::parse(cursor)?.into_inner();
        let vu_card_iw_record_array = RecordArray::<VuCardIWRecordGen2>::parse(cursor)?.into_inner();
        let vu_activity_daily_record_array = RecordArray::<ActivityChangeInfo>::parse(cursor)?.into_inner();
        let vu_place_daily_work_period_record_array = RecordArray::<VuPlaceDailyWorkPeriodRecordGen2V2>::parse(cursor)?.into_inner();
        let vu_gnss_ad_record_array = RecordArray::<VuGNSSADRecordGen2V2>::parse(cursor)?.into_inner();
        let vu_specific_condition_record_array = RecordArray::<SpecificConditionRecordGen2>::parse(cursor)?.into_inner();
        let vu_border_crossing_record_array = RecordArray::<VuBorderCrossingRecord>::parse(cursor)?.into_inner();
        let vu_load_unload_record_array = RecordArray::<VuLoadUnloadRecord>::parse(cursor)?.into_inner();
        let signature_record_array = RecordArray::<SignatureGen2>::parse_dyn_size(cursor)?.into_inner();
        Ok(VuActivitiesBlockGen2V2 { date_of_day_downloaded_record_array, odometer_value_midnight_record_array, vu_card_iw_record_array, vu_activity_daily_record_array, vu_place_daily_work_period_record_array, vu_gnss_ad_record_array, vu_specific_condition_record_array, vu_border_crossing_record_array, vu_load_unload_record_array, signature_record_array })
    }
}

impl Parse for VuActivitiesBlockGen2V2 {
    closed spec fn parse_ok(d: Seq<u8>, p: int) -> bool {
        let p1 = array_end(d, p);
        let p2 = array_end(d, p1);
        let p3 = array_end(d, p2);
        let p4 = array_end(d, p3);
        let p5 = array_end(d, p4);
        let p6 = array_end(d, p5);
        let p7 = array_end(d, p6);
        let p8 = array_end(d, p7);
        let p9 = array_end(d, p8);
        array_ok::<DateOfDayDownloadedGen2>(d, p)
            && array_ok::<OdometerValueMidnight>(d, p1)
            && array_ok::<VuCardIWRecordGen2>(d, p2)
            && array_ok::<ActivityChangeInfo>(d, p3)
            && array_ok::<VuPlaceDailyWorkPeriodRecordGen2V2>(d, p4)
            && array_ok::<VuGNSSADRecordGen2V2>(d, p5)
            && array_ok::<SpecificConditionRecordGen2>(d, p6)
            && array_ok::<VuBorderCrossingRecord>(d, p7)
            && array_ok::<VuLoadUnloadRecord>(d, p8)
            && dyn_array_ok::<SignatureGen2>(d, p9)
    }

    closed spec fn parse_end(d: Seq<u8>, p: int) -> int {
        let p1 = array_end(d, p);
        let p2 = array_end(d, p1);
        let p3 = array_end(d, p2);
        let p4 = array_end(d, p3);
        let p5 = array_end(d, p4);
        let p6 = array_end(d, p5);
        let p7 = array_end(d, p6);
        let p8 = array_end(d, p7);
        let p9 = array_end(d, p8);
        let p10 = array_end(d, p9);
        if !array_ok::<DateOfDayDownloadedGen2>(d, p) {
            p1
        } else if !array_ok::<OdometerValueMidnight>(d, p1) {
            p2
        } else if !array_ok::<VuCardIWRecordGen2>(d, p2) {
            p3
        } else if !array_ok::<ActivityChangeInfo>(d, p3) {
            p4
        } else if !array_ok::<VuPlaceDailyWorkPeriodRecordGen2V2>(d, p4) {
            p5
        } else if !array_ok::<VuGNSSADRecordGen2V2>(d, p5) {
            p6
        } else if !array_ok::<SpecificConditionRecordGen2>(d, p6) {
            p7
        } else if !array_ok::<VuBorderCrossingRecord>(d, p7) {
            p8
        } else if !array_ok::<VuLoadUnloadRecord>(d, p8) {
            p9
        } else if !dyn_array_ok::<SignatureGen2>(d, p9) {
            p10
        } else {
            p10
        }
    }

    closed spec fn parsed_as(d: Seq<u8>, p: int, v: VuActivitiesBlockGen2V2) -> bool {
        let p1 = array_end(d, p);
        let p2 = array_end(d, p1);
        let p3 = array_end(d, p2);
        let p4 = array_end(d, p3);
        let p5 = array_end(d, p4);
        let p6 = array_end(d, p5);
        let p7 = array_end(d, p6);
        let p8 = array_end(d, p7);
        let p9 = array_end(d, p8);
        array_as::<DateOfDayDownloadedGen2>(d, p, v.date_of_day_downloaded_record_array@)
            && array_as::<OdometerValueMidnight>(d, p1, v.odometer_value_midnight_record_array@)
            && array_as::<VuCardIWRecordGen2>(d, p2, v.vu_card_iw_record_array@)
            && array_as::<ActivityChangeInfo>(d, p3, v.vu_activity_daily_record_array@)
            && array_as::<VuPlaceDailyWorkPeriodRecordGen2V2>(d, p4, v.vu_place_daily_work_period_record_array@)
            && array_as::<VuGNSSADRecordGen2V2>(d, p5, v.vu_gnss_ad_record_array@)
            && array_as::<SpecificConditionRecordGen2>(d, p6, v.vu_specific_condition_record_array@)
            && array_as::<VuBorderCrossingRecord>(d, p7, v.vu_border_crossing_record_array@)
            && array_as::<VuLoadUnloadRecord>(d, p8, v.vu_load_unload_record_array@)
            && dyn_array_as::<SignatureGen2>(d, p9, v.signature_record_array@)
    }

    closed spec fn parse_err(d: Seq<u8>, p: int) -> ParseError {
        let p1 = array_end(d, p);
        let p2 = array_end(d, p1);
        let p3 = array_end(d, p2);
        let p4 = array_end(d, p3);
        let p5 = array_end(d, p4);
        let p6 = array_end(d, p5);
        let p7 = array_end(d, p6);
        let p8 = array_end(d, p7);
        let p9 = array_end(d, p8);
        if !array_ok::<DateOfDayDownloadedGen2>(d, p) {
            array_err::<DateOfDayDownloadedGen2>(d, p)
        } else if !array_ok::<OdometerValueMidnight>(d, p1) {
            array_err::<OdometerValueMidnight>(d, p1)
        } else if !array_ok::<VuCardIWRecordGen2>(d, p2) {
            array_err::<VuCardIWRecordGen2>(d, p2)
        } else if !array_ok::<ActivityChangeInfo>(d, p3) {
            array_err::<ActivityChangeInfo>(d, p3)
        } else if !array_ok::<VuPlaceDailyWorkPeriodRecordGen2V2>(d, p4) {
            array_err::<VuPlaceDailyWorkPeriodRecordGen2V2>(d, p4)
        } else if !array_ok::<VuGNSSADRecordGen2V2>(d, p5) {
            array_err::<VuGNSSADRecordGen2V2>(d, p5)
        } else if !array_ok::<SpecificConditionRecordGen2>(d, p6) {
            array_err::<SpecificConditionRecordGen2>(d, p6)
        } else if !array_ok::<VuBorderCrossingRecord>(d, p7) {
            array_err::<VuBorderCrossingRecord>(d, p7)
        } else if !array_ok::<VuLoadUnloadRecord>(d, p8) {
            array_err::<VuLoadUnloadRecord>(d, p8)
        } else if !dyn_array_ok::<SignatureGen2>(d, p9) {
            dyn_array_err::<SignatureGen2>(d, p9)
        } else {
            ParseError::InvalidValue
        }
    }

    fn parse(cursor: &mut Cursor) -> (res: Result<VuActivitiesBlockGen2V2, ParseError>) {
        VuActivitiesBlockGen2V2::parse(cursor)
    }
}

impl VuActivitiesBlockGen2V2 {
    /// What reading a `VuActivitiesBlockGen2V2` at position `p` of `d` means, spelled out
    /// for readers outside this module.
    pub proof fn lemma_parse_spec(d: Seq<u8>, p: int, v: VuActivitiesBlockGen2V2)
        ensures
            VuActivitiesBlockGen2V2::parse_ok(d, p) == ({
                let p1 = array_end(d, p);
                let p2 = array_end(d, p1);
                let p3 = array_end(d, p2);
                let p4 = array_end(d, p3);
                let p5 = array_end(d, p4);
                let p6 = array_end(d, p5);
                let p7 = array_end(d, p6);
                let p8 = array_end(d, p7);
                let p9 = array_end(d, p8);
                array_ok::<DateOfDayDownloadedGen2>(d, p)
            && array_ok::<OdometerValueMidnight>(d, p1)
            && array_ok::<VuCardIWRecordGen2>(d, p2)
            && array_ok::<ActivityChangeInfo>(d, p3)
            && array_ok::<VuPlaceDailyWorkPeriodRecordGen2V2>(d, p4)
            && array_ok::<VuGNSSADRecordGen2V2>(d, p5)
            && array_ok::<SpecificConditionRecordGen2>(d, p6)
            && array_ok::<VuBorderCrossingRecord>(d, p7)
            && array_ok::<VuLoadUnloadRecord>(d, p8)
            && dyn_array_ok::<SignatureGen2>(d, p9)
            }),
            VuActivitiesBlockGen2V2::parse_end(d, p) == ({
                let p1 = array_end(d, p);
                let p2 = array_end(d, p1);
                let p3 = array_end(d, p2);
                let p4 = array_end(d, p3);
                let p5 = array_end(d, p4);
                let p6 = array_end(d, p5);
                let p7 = array_end(d, p6);
                let p8 = array_end(d, p7);
                let p9 = array_end(d, p8);
                let p10 = array_end(d, p9);
                if !array_ok::<DateOfDayDownloadedGen2>(d, p) {
            p1
        } else if !array_ok::<OdometerValueMidnight>(d, p1) {
            p2
        } else if !array_ok::<VuCardIWRecordGen2>(d, p2) {
            p3
        } else if !array_ok::<ActivityChangeInfo>(d, p3) {
            p4
        } else if !array_ok::<VuPlaceDailyWorkPeriodRecordGen2V2>(d, p4) {
            p5
        } else if !array_ok::<VuGNSSADRecordGen2V2>(d, p5) {
            p6
        } else if !array_ok::<SpecificConditionRecordGen2>(d, p6) {
            p7
        } else if !array_ok::<VuBorderCrossingRecord>(d, p7) {
            p8
        } else if !array_ok::<VuLoadUnloadRecord>(d, p8) {
            p9
        } else if !dyn_array_ok::<SignatureGen2>(d, p9) {
            p10
        } else {
            p10
        }
            }),
            VuActivitiesBlockGen2V2::parsed_as(d, p, v) == ({
                let p1 = array_end(d, p);
                let p2 = array_end(d, p1);
                let p3 = array_end(d, p2);
                let p4 = array_end(d, p3);
                let p5 = array_end(d, p4);
                let p6 = array_end(d, p5);
                let p7 = array_end(d, p6);
                let p8 = array_end(d, p7);
                let p9 = array_end(d, p8);
                array_as::<DateOfDayDownloadedGen2>(d, p, v.date_of_day_downloaded_record_array@)
            && array_as::<OdometerValueMidnight>(d, p1, v.odometer_value_midnight_record_array@)
            && array_as::<VuCardIWRecordGen2>(d, p2, v.vu_card_iw_record_array@)
            && array_as::<ActivityChangeInfo>(d, p3, v.vu_activity_daily_record_array@)
            && array_as::<VuPlaceDailyWorkPeriodRecordGen2V2>(d, p4, v.vu_place_daily_work_period_record_array@)
            && array_as::<VuGNSSADRecordGen2V2>(d, p5, v.vu_gnss_ad_record_array@)
            && array_as::<SpecificConditionRecordGen2>(d, p6, v.vu_specific_condition_record_array@)
            && array_as::<VuBorderCrossingRecord>(d, p7, v.vu_border_crossing_record_array@)
            && array_as::<VuLoadUnloadRecord>(d, p8, v.vu_load_unload_record_array@)
            && dyn_array_as::<SignatureGen2>(d, p9, v.signature_record_array@)
            }),
            VuActivitiesBlockGen2V2::parse_err(d, p) == ({
                let p1 = array_end(d, p);
                let p2 = array_end(d, p1);
                let p3 = array_end(d, p2);
                let p4 = array_end(d, p3);
                let p5 = array_end(d, p4);
                let p6 = array_end(d, p5);
                let p7 = array_end(d, p6);
                let p8 = array_end(d, p7);
                let p9 = array_end(d, p8);
                if !array_ok::<DateOfDayDownloadedGen2>(d, p) {
            array_err::<DateOfDayDownloadedGen2>(d, p)
        } else if !array_ok::<OdometerValueMidnight>(d, p1) {
            array_err::<OdometerValueMidnight>(d, p1)
        } else if !array_ok::<VuCardIWRecordGen2>(d, p2) {
            array_err::<VuCardIWRecordGen2>(d, p2)
        } else if !array_ok::<ActivityChangeInfo>(d, p3) {
            array_err::<ActivityChangeInfo>(d, p3)
        } else if !array_ok::<VuPlaceDailyWorkPeriodRecordGen2V2>(d, p4) {
            array_err::<VuPlaceDailyWorkPeriodRecordGen2V2>(d, p4)
        } else if !array_ok::<VuGNSSADRecordGen2V2>(d, p5) {
            array_err::<VuGNSSADRecordGen2V2>(d, p5)
        } else if !array_ok::<SpecificConditionRecordGen2>(d, p6) {
            array_err::<SpecificConditionRecordGen2>(d, p6)
        } else if !array_ok::<VuBorderCrossingRecord>(d, p7) {
            array_err::<VuBorderCrossingRecord>(d, p7)
        } else if !array_ok::<VuLoadUnloadRecord>(d, p8) {
            array_err::<VuLoadUnloadRecord>(d, p8)
        } else if !dyn_array_ok::<SignatureGen2>(d, p9) {
            dyn_array_err::<SignatureGen2>(d, p9)
        } else {
            ParseError::InvalidValue
        }
            }),
    {
    }
}

/// PlaceAuthRecord (appendix 2.116a).
#[derive(Debug)]
pub struct PlaceAuthRecord {
    pub entry_time: TimeReal,
    pub entry_type_daily_work_period: EntryTypeDailyWorkPeriodGen2,
    pub daily_work_period_country: NationNumeric,
    pub daily_work_period_region: RegionNumeric,
    pub vehicle_odometer_value: OdometerShort,
    pub entry_gnss_place_auth_record: GNSSPlaceAuthRecord,
}

impl PlaceAuthRecord {
    /// Reads a `PlaceAuthRecord` at the reader's position.
    pub fn parse(cursor: &mut Cursor) -> (res: Result<PlaceAuthRecord, ParseError>)
        ensures
            final(cursor).data() == old(cursor).data(),
            old(cursor).pos() <= final(cursor).pos(),
            final(cursor).pos() == PlaceAuthRecord::parse_end(old(cursor).data(), old(cursor).pos()),
            res is Ok <==> PlaceAuthRecord::parse_ok(old(cursor).data(), old(cursor).pos()),
            res matches Ok(v) ==> PlaceAuthRecord::parsed_as(old(cursor).data(), old(cursor).pos(), v),
            res matches Err(e) ==> e == PlaceAuthRecord::parse_err(old(cursor).data(), old(cursor).pos()),
    {
        let entry_time = TimeReal::parse(cursor)?;
        let entry_type_daily_work_period = EntryTypeDailyWorkPeriodGen2::parse(cursor)?;
        let daily_work_period_country = NationNumeric::parse(cursor)?;
        let daily_work_period_region = RegionNumeric::parse(cursor)?;
        let vehicle_odometer_value = OdometerShort::parse(cursor)?;
        let entry_gnss_place_auth_record = GNSSPlaceAuthRecord::parse(cursor)?;
        Ok(PlaceAuthRecord { entry_time, entry_type_daily_work_period, daily_work_period_country, daily_work_period_region, vehicle_odometer_value, entry_gnss_place_auth_record })
    }
}

impl Parse for PlaceAuthRecord {
    open spec fn parse_ok(d: Seq<u8>, p: int) -> bool {
        let p1 = TimeReal::parse_end(d, p);
        let p2 = EntryTypeDailyWorkPeriodGen2::parse_end(d, p1);
        let p3 = NationNumeric::parse_end(d, p2);
        let p4 = RegionNumeric::parse_end(d, p3);
        let p5 = OdometerShort::parse_end(d, p4);
        TimeReal::parse_ok(d, p)
            && EntryTypeDailyWorkPeriodGen2::parse_ok(d, p1)
            && NationNumeric::parse_ok(d, p2)
            && RegionNumeric::parse_ok(d, p3)
            && OdometerShort::parse_ok(d, p4)
            && GNSSPlaceAuthRecord::parse_ok(d, p5)
    }

    open spec fn parse_end(d: Seq<u8>, p: int) -> int {
        let p1 = TimeReal::parse_end(d, p);
        let p2 = EntryTypeDailyWorkPeriodGen2::parse_end(d, p1);
        let p3 = NationNumeric::parse_end(d, p2);
        let p4 = RegionNumeric::parse_end(d, p3);
        let p5 = OdometerShort::parse_end(d, p4);
        let p6 = GNSSPlaceAuthRecord::parse_end(d, p5);
        if !TimeReal::parse_ok(d, p) {
            p1
        } else if !EntryTypeDailyWorkPeriodGen2::parse_ok(d, p1) {
            p2
        } else if !NationNumeric::parse_ok(d, p2) {
            p3
        } else if !RegionNumeric::parse_ok(d, p3) {
            p4
        } else if !OdometerShort::parse_ok(d, p4) {
            p5
        } else if !GNSSPlaceAuthRecord::parse_ok(d, p5) {
            p6
        } else {
            p6
        }
    }

    open spec fn parsed_as(d: Seq<u8>, p: int, v: PlaceAuthRecord) -> bool {
        let p1 = TimeReal::parse_end(d, p);
        let p2 = EntryTypeDailyWorkPeriodGen2::parse_end(d, p1);
        let p3 = NationNumeric::parse_end(d, p2);
        let p4 = RegionNumeric::parse_end(d, p3);
        let p5 = OdometerShort::parse_end(d, p4);
        TimeReal::parsed_as(d, p, v.entry_time)
            && EntryTypeDailyWorkPeriodGen2::parsed_as(d, p1, v.entry_type_daily_work_period)
            && NationNumeric::parsed_as(d, p2, v.daily_work_period_country)
            && RegionNumeric::parsed_as(d, p3, v.daily_work_period_region)
            && OdometerShort::parsed_as(d, p4, v.vehicle_odometer_value)
            && GNSSPlaceAuthRecord::parsed_as(d, p5, v.entry_gnss_place_auth_record)
    }

    open spec fn parse_err(d: Seq<u8>, p: int) -> ParseError {
        let p1 = TimeReal::parse_end(d, p);
        let p2 = EntryTypeDailyWorkPeriodGen2::parse_end(d, p1);
        let p3 = NationNumeric::parse_end(d, p2);
        let p4 = RegionNumeric::parse_end(d, p3);
        let p5 = OdometerShort::parse_end(d, p4);
        if !TimeReal::parse_ok(d, p) {
            TimeReal::parse_err(d, p)
        } else if !EntryTypeDailyWorkPeriodGen2::parse_ok(d, p1) {
            EntryTypeDailyWorkPeriodGen2::parse_err(d, p1)
        } else if !NationNumeric::parse_ok(d, p2) {
            NationNumeric::parse_err(d, p2)
        } else if !RegionNumeric::parse_ok(d, p3) {
            RegionNumeric::parse_err(d, p3)
        } else if !OdometerShort::parse_ok(d, p4) {
            OdometerShort::parse_err(d, p4)
        } else if !GNSSPlaceAuthRecord::parse_ok(d, p5) {
            GNSSPlaceAuthRecord::parse_err(d, p5)
        } else {
            ParseError::InvalidValue
        }
    }

    fn parse(cursor: &mut Cursor) -> (res: Result<PlaceAuthRecord, ParseError>) {
        PlaceAuthRecord::parse(cursor)
    }
}

/// VuPlaceDailyWorkPeriodRecord (appendix 2.220) as version 2 defines it.
#[derive(Debug)]
pub struct VuPlaceDailyWorkPeriodRecordGen2V2 {
    pub full_card_number_and_generation: Option<FullCardNumberAndGenerationGen2>,
    pub place_record: PlaceAuthRecord,
}

impl VuPlaceDailyWorkPeriodRecordGen2V2 {
    /// Reads a `VuPlaceDailyWorkPeriodRecordGen2V2` at the reader's position.
    pub fn parse(cursor: &mut Cursor) -> (res: Result<VuPlaceDailyWorkPeriodRecordGen2V2, ParseError>)
        ensures
            final(cursor).data() == old(cursor).data(),
            old(cursor).pos() <= final(cursor).pos(),
            final(cursor).pos() == VuPlaceDailyWorkPeriodRecordGen2V2::parse_end(old(cursor).data(), old(cursor).pos()),
            res is Ok <==> VuPlaceDailyWorkPeriodRecordGen2V2::parse_ok(old(cursor).data(), old(cursor).pos()),
            res matches Ok(v) ==> VuPlaceDailyWorkPeriodRecordGen2V2::parsed_as(old(cursor).data(), old(cursor).pos(), v),
            res matches Err(e) ==> e == VuPlaceDailyWorkPeriodRecordGen2V2::parse_err(old(cursor).data(), old(cursor).pos()),
    {
        let full_card_number_and_generation = parse_optional::<FullCardNumberAndGenerationGen2>(cursor);
        let place_record = PlaceAuthRecord::parse(cursor)?;
        Ok(VuPlaceDailyWorkPeriodRecordGen2V2 { full_card_number_and_generation, place_record })
    }
}

impl Parse for VuPlaceDailyWorkPeriodRecordGen2V2 {
    open spec fn parse_ok(d: Seq<u8>, p: int) -> bool {
        let p1 = FullCardNumberAndGenerationGen2::parse_end(d, p);
        PlaceAuthRecord::parse_ok(d, p1)
    }

    open spec fn parse_end(d: Seq<u8>, p: int) -> int {
        let p1 = FullCardNumberAndGenerationGen2::parse_end(d, p);
        let p2 = PlaceAuthRecord::parse_end(d, p1);
        if !PlaceAuthRecord::parse_ok(d, p1) {
            p2
        } else {
            p2
        }
    }

    open spec fn parsed_as(d: Seq<u8>, p: int, v: VuPlaceDailyWorkPeriodRecordGen2V2) -> bool {
        let p1 = FullCardNumberAndGenerationGen2::parse_end(d, p);
        optional_as::<FullCardNumberAndGenerationGen2>(d, p, v.full_card_number_and_generation)
            && PlaceAuthRecord::parsed_as(d, p1, v.place_record)
    }

    open spec fn parse_err(d: Seq<u8>, p: int) -> ParseError {
        let p1 = FullCardNumberAndGenerationGen2::parse_end(d, p);
        if !PlaceAuthRecord::parse_ok(d, p1) {
            PlaceAuthRecord::parse_err(d, p1)
        } else {
            ParseError::InvalidValue
        }
    }

    fn parse(cursor: &mut Cursor) -> (res: Result<VuPlaceDailyWorkPeriodRecordGen2V2, ParseError>) {
        VuPlaceDailyWorkPeriodRecordGen2V2::parse(cursor)
    }
}

/// VuGNSSADRecord (appendix 2.203) as version 2 defines it.
#[derive(Debug)]
pub struct VuGNSSADRecordGen2V2 {
    pub timestamp: TimeReal,
    pub card_number_and_gen_driver_slot: Option<FullCardNumberAndGenerationGen2>,
    pub card_number_and_gen_codriver_slot: Option<FullCardNumberAndGenerationGen2>,
    pub gnss_place_auth_record: GNSSPlaceAuthRecord,
    pub vehicle_odometer_value: OdometerShort,
}

impl VuGNSSADRecordGen2V2 {
    /// Reads a `VuGNSSADRecordGen2V2` at the reader's position.
    pub fn parse(cursor: &mut Cursor) -> (res: Result<VuGNSSADRecordGen2V2, ParseError>)
        ensures
            final(cursor).data() == old(cursor).data(),
            old(cursor).pos() <= final(cursor).pos(),
            final(cursor).pos() == VuGNSSADRecordGen2V2::parse_end(old(cursor).data(), old(cursor).pos()),
            res is Ok <==> VuGNSSADRecordGen2V2::parse_ok(old(cursor).data(), old(cursor).pos()),
            res matches Ok(v) ==> VuGNSSADRecordGen2V2::parsed_as(old(cursor).data(), old(cursor).pos(), v),
            res matches Err(e) ==> e == VuGNSSADRecordGen2V2::parse_err(old(cursor).data(), old(cursor).pos()),
    {
        let timestamp = TimeReal::parse(cursor)?;
        let card_number_and_gen_driver_slot = parse_optional::<FullCardNumberAndGenerationGen2>(cursor);
        let card_number_and_gen_codriver_slot = parse_optional::<FullCardNumberAndGenerationGen2>(cursor);
        let gnss_place_auth_record = GNSSPlaceAuthRecord::parse(cursor)?;
        let vehicle_odometer_value = OdometerShort::parse(cursor)?;
        Ok(VuGNSSADRecordGen2V2 { timestamp, card_number_and_gen_driver_slot, card_number_and_gen_codriver_slot, gnss_place_auth_record, vehicle_odometer_value })
    }
}

impl Parse for VuGNSSADRecordGen2V2 {
    open spec fn parse_ok(d: Seq<u8>, p: int) -> bool {
        let p1 = TimeReal::parse_end(d, p);
        let p2 = FullCardNumberAndGenerationGen2::parse_end(d, p1);
        let p3 = FullCardNumberAndGenerationGen2::parse_end(d, p2);
        let p4 = GNSSPlaceAuthRecord::parse_end(d, p3);
        TimeReal::parse_ok(d, p)
            && GNSSPlaceAuthRecord::parse_ok(d, p3)
            && OdometerShort::parse_ok(d, p4)
    }

    open spec fn parse_end(d: Seq<u8>, p: int) -> int {
        let p1 = TimeReal::parse_end(d, p);
        let p2 = FullCardNumberAndGenerationGen2::parse_end(d, p1);
        let p3 = FullCardNumberAndGenerationGen2::parse_end(d, p2);
        let p4 = GNSSPlaceAuthRecord::parse_end(d, p3);
        let p5 = OdometerShort::parse_end(d, p4);
        if !TimeReal::parse_ok(d, p) {
            p1
        } else if !GNSSPlaceAuthRecord::parse_ok(d, p3) {
            p4
        } else if !OdometerShort::parse_ok(d, p4) {
            p5
        } else {
            p5
        }
    }

    open spec fn parsed_as(d: Seq<u8>, p: int, v: VuGNSSADRecordGen2V2) -> bool {
        let p1 = TimeReal::parse_end(d, p);
        let p2 = FullCardNumberAndGenerationGen2::parse_end(d, p1);
        let p3 = FullCardNumberAndGenerationGen2::parse_end(d, p2);
        let p4 = GNSSPlaceAuthRecord::parse_end(d, p3);
        TimeReal::parsed_as(d, p, v.timestamp)
            && optional_as::<FullCardNumberAndGenerationGen2>(d, p1, v.card_number_and_gen_driver_slot)
            && optional_as::<FullCardNumberAndGenerationGen2>(d, p2, v.card_number_and_gen_codriver_slot)
            && GNSSPlaceAuthRecord::parsed_as(d, p3, v.gnss_place_auth_record)
            && OdometerShort::parsed_as(d, p4, v.vehicle_odometer_value)
    }

    open spec fn parse_err(d: Seq<u8>, p: int) -> ParseError {
        let p1 = TimeReal::parse_end(d, p);
        let p2 = FullCardNumberAndGenerationGen2::parse_end(d, p1);
        let p3 = FullCardNumberAndGenerationGen2::parse_end(d, p2);
        let p4 = GNSSPlaceAuthRecord::parse_end(d, p3);
        if !TimeReal::parse_ok(d, p) {
            TimeReal::parse_err(d, p)
        } else if !GNSSPlaceAuthRecord::parse_ok(d, p3) {
            GNSSPlaceAuthRecord::parse_err(d, p3)
        } else if !OdometerShort::parse_ok(d, p4) {
            OdometerShort::parse_err(d, p4)
        } else {
            ParseError::InvalidValue
        }
    }

    fn parse(cursor: &mut Cursor) -> (res: Result<VuGNSSADRecordGen2V2, ParseError>) {
        VuGNSSADRecordGen2V2::parse(cursor)
    }
}

/// VuBorderCrossingRecord (appendix 2.203a).
#[derive(Debug)]
pub struct VuBorderCrossingRecord {
    pub card_number_and_gen_driver_slot: Option<FullCardNumberAndGenerationGen2>,
    pub card_number_and_gen_codriver_slot: Option<FullCardNumberAndGenerationGen2>,
    pub country_left: NationNumeric,
    pub country_entered: NationNumeric,
    pub gnss_place_auth_record: GNSSPlaceAuthRecord,
    pub vehicle_odometer_value: OdometerShort,
}

impl VuBorderCrossingRecord {
    /// Reads a `VuBorderCrossingRecord` at the reader's position.
    pub fn parse(cursor: &mut Cursor) -> (res: Result<VuBorderCrossingRecord, ParseError>)
        ensures
            final(cursor).data() == old(cursor).data(),
            old(cursor).pos() <= final(cursor).pos(),
            final(cursor).pos() == VuBorderCrossingRecord::parse_end(old(cursor).data(), old(cursor).pos()),
            res is Ok <==> VuBorderCrossingRecord::parse_ok(old(cursor).data(), old(cursor).pos()),
            res matches Ok(v) ==> VuBorderCrossingRecord::parsed_as(old(cursor).data(), old(cursor).pos(), v),
            res matches Err(e) ==> e == VuBorderCrossingRecord::parse_err(old(cursor).data(), old(cursor).pos()),
    {
        let card_number_and_gen_driver_slot = parse_optional::<FullCardNumberAndGenerationGen2>(cursor);
        let card_number_and_gen_codriver_slot = parse_optional::<FullCardNumberAndGenerationGen2>(cursor);
        let country_left = NationNumeric::parse(cursor)?;
        let country_entered = NationNumeric::parse(cursor)?;
        let gnss_place_auth_record = GNSSPlaceAuthRecord::parse(cursor)?;
        let vehicle_odometer_value = OdometerShort::parse(cursor)?;
        Ok(VuBorderCrossingRecord { card_number_and_gen_driver_slot, card_number_and_gen_codriver_slot, country_left, country_entered, gnss_place_auth_record, vehicle_odometer_value })
    }
}

impl Parse for VuBorderCrossingRecord {
    open spec fn parse_ok(d: Seq<u8>, p: int) -> bool {
        let p1 = FullCardNumberAndGenerationGen2::parse_end(d, p);
        let p2 = FullCardNumberAndGenerationGen2::parse_end(d, p1);
        let p3 = NationNumeric::parse_end(d, p2);
        let p4 = NationNumeric::parse_end(d, p3);
        let p5 = GNSSPlaceAuthRecord::parse_end(d, p4);
        NationNumeric::parse_ok(d, p2)
            && NationNumeric::parse_ok(d, p3)
            && GNSSPlaceAuthRecord::parse_ok(d, p4)
            && OdometerShort::parse_ok(d, p5)
    }

    open spec fn parse_end(d: Seq<u8>, p: int) -> int {
        let p1 = FullCardNumberAndGenerationGen2::parse_end(d, p);
        let p2 = FullCardNumberAndGenerationGen2::parse_end(d, p1);
        let p3 = NationNumeric::parse_end(d, p2);
        let p4 = NationNumeric::parse_end(d, p3);
        let p5 = GNSSPlaceAuthRecord::parse_end(d, p4);
        let p6 = OdometerShort::parse_end(d, p5);
        if !NationNumeric::parse_ok(d, p2) {
            p3
        } else if !NationNumeric::parse_ok(d, p3) {
            p4
        } else if !GNSSPlaceAuthRecord::parse_ok(d, p4) {
            p5
        } else if !OdometerShort::parse_ok(d, p5) {
            p6
        } else {
            p6
        }
    }

    open spec fn parsed_as(d: Seq<u8>, p: int, v: VuBorderCrossingRecord) -> bool {
        let p1 = FullCardNumberAndGenerationGen2::parse_end(d, p);
        let p2 = FullCardNumberAndGenerationGen2::parse_end(d, p1);
        let p3 = NationNumeric::parse_end(d, p2);
        let p4 = NationNumeric::parse_end(d, p3);
        let p5 = GNSSPlaceAuthRecord::parse_end(d, p4);
        optional_as::<FullCardNumberAndGenerationGen2>(d, p, v.card_number_and_gen_driver_slot)
            && optional_as::<FullCardNumberAndGenerationGen2>(d, p1, v.card_number_and_gen_codriver_slot)
            && NationNumeric::parsed_as(d, p2, v.country_left)
            && NationNumeric::parsed_as(d, p3, v.country_entered)
            && GNSSPlaceAuthRecord::parsed_as(d, p4, v.gnss_place_auth_record)
            && OdometerShort::parsed_as(d, p5, v.vehicle_odometer_value)
    }

    open spec fn parse_err(d: Seq<u8>, p: int) -> ParseError {
        let p1 = FullCardNumberAndGenerationGen2::parse_end(d, p);
        let p2 = FullCardNumberAndGenerationGen2::parse_end(d, p1);
        let p3 = NationNumeric::parse_end(d, p2);
        let p4 = NationNumeric::parse_end(d, p3);
        let p5 = GNSSPlaceAuthRecord::parse_end(d, p4);
        if !NationNumeric::parse_ok(d, p2) {
            NationNumeric::parse_err(d, p2)
        } else if !NationNumeric::parse_ok(d, p3) {
            NationNumeric::parse_err(d, p3)
        } else if !GNSSPlaceAuthRecord::parse_ok(d, p4) {
            GNSSPlaceAuthRecord::parse_err(d, p4)
        } else if !OdometerShort::parse_ok(d, p5) {
            OdometerShort::parse_err(d, p5)
        } else {
            ParseError::InvalidValue
        }
    }

    fn parse(cursor: &mut Cursor) -> (res: Result<VuBorderCrossingRecord, ParseError>) {
        VuBorderCrossingRecord::parse(cursor)
    }
}

/// VuLoadUnloadRecord (appendix 2.208a).
#[derive(Debug)]
pub struct VuLoadUnloadRecord {
    pub time_stamp: TimeReal,
    pub operation_type: OperationType,
    pub card_number_and_gen_driver_slot: Option<FullCardNumberAndGenerationGen2>,
    pub card_number_and_gen_codriver_slot: Option<FullCardNumberAndGenerationGen2>,
    pub gnss_place_auth_record: GNSSPlaceAuthRecord,
    pub vehicle_odometer_value: OdometerShort,
}

impl VuLoadUnloadRecord {
    /// Reads a `VuLoadUnloadRecord` at the reader's position.
    pub fn parse(cursor: &mut Cursor) -> (res: Result<VuLoadUnloadRecord, ParseError>)
        ensures
            final(cursor).data() == old(cursor).data(),
            old(cursor).pos() <= final(cursor).pos(),
            final(cursor).pos() == VuLoadUnloadRecord::parse_end(old(cursor).data(), old(cursor).pos()),
            res is Ok <==> VuLoadUnloadRecord::parse_ok(old(cursor).data(), old(cursor).pos()),
            res matches Ok(v) ==> VuLoadUnloadRecord::parsed_as(old(cursor).data(), old(cursor).pos(), v),
            res matches Err(e) ==> e == VuLoadUnloadRecord::parse_err(old(cursor).data(), old(cursor).pos()),
    {
        let time_stamp = TimeReal::parse(cursor)?;
        let operation_type = OperationType::parse(cursor)?;
        let card_number_and_gen_driver_slot = parse_optional::<FullCardNumberAndGenerationGen2>(cursor);
        let card_number_and_gen_codriver_slot = parse_optional::<FullCardNumberAndGenerationGen2>(cursor);
        let gnss_place_auth_record = GNSSPlaceAuthRecord::parse(cursor)?;
        let vehicle_odometer_value = OdometerShort::parse(cursor)?;
        Ok(VuLoadUnloadRecord { time_stamp, operation_type, card_number_and_gen_driver_slot, card_number_and_gen_codriver_slot, gnss_place_auth_record, vehicle_odometer_value })
    }
}

impl Parse for VuLoadUnloadRecord {
    open spec fn parse_ok(d: Seq<u8>, p: int) -> bool {
        let p1 = TimeReal::parse_end(d, p);
        let p2 = OperationType::parse_end(d, p1);
        let p3 = FullCardNumberAndGenerationGen2::parse_end(d, p2);
        let p4 = FullCardNumberAndGenerationGen2::parse_end(d, p3);
        let p5 = GNSSPlaceAuthRecord::parse_end(d, p4);
        TimeReal::parse_ok(d, p)
            && OperationType::parse_ok(d, p1)
            && GNSSPlaceAuthRecord::parse_ok(d, p4)
            && OdometerShort::parse_ok(d, p5)
    }

    open spec fn parse_end(d: Seq<u8>, p: int) -> int {
        let p1 = TimeReal::parse_end(d, p);
        let p2 = OperationType::parse_end(d, p1);
        let p3 = FullCardNumberAndGenerationGen2::parse_end(d, p2);
        let p4 = FullCardNumberAndGenerationGen2::parse_end(d, p3);
        let p5 = GNSSPlaceAuthRecord::parse_end(d, p4);
        let p6 = OdometerShort::parse_end(d, p5);
        if !TimeReal::parse_ok(d, p) {
            p1
        } else if !OperationType::parse_ok(d, p1) {
            p2
        } else if !GNSSPlaceAuthRecord::parse_ok(d, p4) {
            p5
        } else if !OdometerShort::parse_ok(d, p5) {
            p6
        } else {
            p6
        }
    }

    open spec fn parsed_as(d: Seq<u8>, p: int, v: VuLoadUnloadRecord) -> bool {
        let p1 = TimeReal::parse_end(d, p);
        let p2 = OperationType::parse_end(d, p1);
        let p3 = FullCardNumberAndGenerationGen2::parse_end(d, p2);
        let p4 = FullCardNumberAndGenerationGen2::parse_end(d, p3);
        let p5 = GNSSPlaceAuthRecord::parse_end(d, p4);
        TimeReal::parsed_as(d, p, v.time_stamp)
            && OperationType::parsed_as(d, p1, v.operation_type)
            && optional_as::<FullCardNumberAndGenerationGen2>(d, p2, v.card_number_and_gen_driver_slot)
            && optional_as::<FullCardNumberAndGenerationGen2>(d, p3, v.card_number_and_gen_codriver_slot)
            && GNSSPlaceAuthRecord::parsed_as(d, p4, v.gnss_place_auth_record)
            && OdometerShort::parsed_as(d, p5, v.vehicle_odometer_value)
    }

    open spec fn parse_err(d: Seq<u8>, p: int) -> ParseError {
        let p1 = TimeReal::parse_end(d, p);
        let p2 = OperationType::parse_end(d, p1);
        let p3 = FullCardNumberAndGenerationGen2::parse_end(d, p2);
        let p4 = FullCardNumberAndGenerationGen2::parse_end(d, p3);
        let p5 = GNSSPlaceAuthRecord::parse_end(d, p4);
        if !TimeReal::parse_ok(d, p) {
            TimeReal::parse_err(d, p)
        } else if !OperationType::parse_ok(d, p1) {
            OperationType::parse_err(d, p1)
        } else if !GNSSPlaceAuthRecord::parse_ok(d, p4) {
            GNSSPlaceAuthRecord::parse_err(d, p4)
        } else if !OdometerShort::parse_ok(d, p5) {
            OdometerShort::parse_err(d, p5)
        } else {
            ParseError::InvalidValue
        }
    }

    fn parse(cursor: &mut Cursor) -> (res: Result<VuLoadUnloadRecord, ParseError>) {
        VuLoadUnloadRecord::parse(cursor)
    }
}

/// VuDigitalMapVersion (appendix 2.192a): twelve characters.
#[derive(Debug)]
pub struct VuDigitalMapVersion(pub IA5String);

impl VuDigitalMapVersion {
    /// Reads a `VuDigitalMapVersion` at the reader's position.
    pub fn parse(cursor: &mut Cursor) -> (res: Result<VuDigitalMapVersion, ParseError>)
        ensures
            final(cursor).data() == old(cursor).data(),
            old(cursor).pos() <= final(cursor).pos(),
            final(cursor).pos() == VuDigitalMapVersion::parse_end(old(cursor).data(), old(cursor).pos()),
            res is Ok <==> VuDigitalMapVersion::parse_ok(old(cursor).data(), old(cursor).pos()),
            res matches Ok(v) ==> VuDigitalMapVersion::parsed_as(old(cursor).data(), old(cursor).pos(), v),
            res matches Err(e) ==> e == VuDigitalMapVersion::parse_err(old(cursor).data(), old(cursor).pos()),
    {
        let value = IA5String::parse_dyn_size(cursor, 12)?;
        Ok(VuDigitalMapVersion(value))
    }
}

impl Parse for VuDigitalMapVersion {
    open spec fn parse_ok(d: Seq<u8>, p: int) -> bool {
        IA5String::dyn_ok(d, p, 12)
    }

    open spec fn parse_end(d: Seq<u8>, p: int) -> int {
        let p1 = IA5String::dyn_end(d, p, 12);
        if !IA5String::dyn_ok(d, p, 12) {
            p1
        } else {
            p1
        }
    }

    open spec fn parsed_as(d: Seq<u8>, p: int, v: VuDigitalMapVersion) -> bool {
        IA5String::dyn_as(d, p, 12, v.0)
    }

    open spec fn parse_err(d: Seq<u8>, p: int) -> ParseError {
        if !IA5String::dyn_ok(d, p, 12) {
            IA5String::dyn_err(d, p, 12)
        } else {
            ParseError::InvalidValue
        }
    }

    fn parse(cursor: &mut Cursor) -> (res: Result<VuDigitalMapVersion, ParseError>) {
        VuDigitalMapVersion::parse(cursor)
    }
}

/// VuIdentification (appendix 2.205) as version 2 defines it.
#[derive(Debug)]
pub struct VuIdentificationGen2V2 {
    pub vu_manufacturer_name: VuManufacturerName,
    pub vu_manufacturer_address: VuManufacturerAddress,
    pub vu_part_number: VuPartNumber,
    pub vu_serial_number: VuSerialNumberGen2,
    pub vu_software_identification: VuSoftwareIdentification,
    pub vu_manufacturing_date: VuManufacturingDate,
    pub vu_approval_number: VuApprovalNumberGen2,
    pub vu_generation: GenerationGen2,
    pub vu_ability: VuAbilityGen2,
    pub vu_digital_map_version: VuDigitalMapVersion,
}

impl VuIdentificationGen2V2 {
    /// Reads a `VuIdentificationGen2V2` at the reader's position.
    pub fn parse(cursor: &mut Cursor) -> (res: Result<VuIdentificationGen2V2, ParseError>)
        ensures
            final(cursor).data() == old(cursor).data(),
            old(cursor).pos() <= final(cursor).pos(),
            final(cursor).pos() == VuIdentificationGen2V2::parse_end(old(cursor).data(), old(cursor).pos()),
            res is Ok <==> VuIdentificationGen2V2::parse_ok(old(cursor).data(), old(cursor).pos()),
            res matches Ok(v) ==> VuIdentificationGen2V2::parsed_as(old(cursor).data(), old(cursor).pos(), v),
            res matches Err(e) ==> e == VuIdentificationGen2V2::parse_err(old(cursor).data(), old(cursor).pos()),
    {
        let vu_manufacturer_name = VuManufacturerName::parse(cursor)?;
        let vu_manufacturer_address = VuManufacturerAddress::parse(cursor)?;
        let vu_part_number = VuPartNumber::parse(cursor)?;
        let vu_serial_number = VuSerialNumberGen2::parse(cursor)?;
        let vu_software_identification = VuSoftwareIdentification::parse(cursor)?;
        let vu_manufacturing_date = VuManufacturingDate::parse(cursor)?;
        let vu_approval_number = VuApprovalNumberGen2::parse(cursor)?;
        let vu_generation = GenerationGen2::parse(cursor)?;
        let vu_ability = VuAbilityGen2::parse(cursor)?;
        let vu_digital_map_version = VuDigitalMapVersion::parse(cursor)?;
        Ok(VuIdentificationGen2V2 { vu_manufacturer_name, vu_manufacturer_address, vu_part_number, vu_serial_number, vu_software_identification, vu_manufacturing_date, vu_approval_number, vu_generation, vu_ability, vu_digital_map_version })
    }
}

impl Parse for VuIdentificationGen2V2 {
    open spec fn parse_ok(d: Seq<u8>, p: int) -> bool {
        let p1 = VuManufacturerName::parse_end(d, p);
        let p2 = VuManufacturerAddress::parse_end(d, p1);
        let p3 = VuPartNumber::parse_end(d, p2);
        let p4 = VuSerialNumberGen2::parse_end(d, p3);
        let p5 = VuSoftwareIdentification::parse_end(d, p4);
        let p6 = VuManufacturingDate::parse_end(d, p5);
        let p7 = VuApprovalNumberGen2::parse_end(d, p6);
        let p8 = GenerationGen2::parse_end(d, p7);
        let p9 = VuAbilityGen2::parse_end(d, p8);
        VuManufacturerName::parse_ok(d, p)
            && VuManufacturerAddress::parse_ok(d, p1)
            && VuPartNumber::parse_ok(d, p2)
            && VuSerialNumberGen2::parse_ok(d, p3)
            && VuSoftwareIdentification::parse_ok(d, p4)
            && VuManufacturingDate::parse_ok(d, p5)
            && VuApprovalNumberGen2::parse_ok(d, p6)
            && GenerationGen2::parse_ok(d, p7)
            && VuAbilityGen2::parse_ok(d, p8)
            && VuDigitalMapVersion::parse_ok(d, p9)
    }

    open spec fn parse_end(d: Seq<u8>, p: int) -> int {
        let p1 = VuManufacturerName::parse_end(d, p);
        let p2 = VuManufacturerAddress::parse_end(d, p1);
        let p3 = VuPartNumber::parse_end(d, p2);
        let p4 = VuSerialNumberGen2::parse_end(d, p3);
        let p5 = VuSoftwareIdentification::parse_end(d, p4);
        let p6 = VuManufacturingDate::parse_end(d, p5);
        let p7 = VuApprovalNumberGen2::parse_end(d, p6);
        let p8 = GenerationGen2::parse_end(d, p7);
        let p9 = VuAbilityGen2::parse_end(d, p8);
        let p10 = VuDigitalMapVersion::parse_end(d, p9);
        if !VuManufacturerName::parse_ok(d, p) {
            p1
        } else if !VuManufacturerAddress::parse_ok(d, p1) {
            p2
        } else if !VuPartNumber::parse_ok(d, p2) {
            p3
        } else if !VuSerialNumberGen2::parse_ok(d, p3) {
            p4
        } else if !VuSoftwareIdentification::parse_ok(d, p4) {
            p5
        } else if !VuManufacturingDate::parse_ok(d, p5) {
            p6
        } else if !VuApprovalNumberGen2::parse_ok(d, p6) {
            p7
        } else if !GenerationGen2::parse_ok(d, p7) {
            p8
        } else if !VuAbilityGen2::parse_ok(d, p8) {
            p9
        } else if !VuDigitalMapVersion::parse_ok(d, p9) {
            p10
        } else {
            p10
        }
    }

    open spec fn parsed_as(d: Seq<u8>, p: int, v: VuIdentificationGen2V2) -> bool {
        let p1 = VuManufacturerName::parse_end(d, p);
        let p2 = VuManufacturerAddress::parse_end(d, p1);
        let p3 = VuPartNumber::parse_end(d, p2);
        let p4 = VuSerialNumberGen2::parse_end(d, p3);
        let p5 = VuSoftwareIdentification::parse_end(d, p4);
        let p6 = VuManufacturingDate::parse_end(d, p5);
        let p7 = VuApprovalNumberGen2::parse_end(d, p6);
        let p8 = GenerationGen2::parse_end(d, p7);
        let p9 = VuAbilityGen2::parse_end(d, p8);
        VuManufacturerName::parsed_as(d, p, v.vu_manufacturer_name)
            && VuManufacturerAddress::parsed_as(d, p1, v.vu_manufacturer_address)
            && VuPartNumber::parsed_as(d, p2, v.vu_part_number)
            && VuSerialNumberGen2::parsed_as(d, p3, v.vu_serial_number)
            && VuSoftwareIdentification::parsed_as(d, p4, v.vu_software_identification)
            && VuManufacturingDate::parsed_as(d, p5, v.vu_manufacturing_date)
            && VuApprovalNumberGen2::parsed_as(d, p6, v.vu_approval_number)
            && GenerationGen2::parsed_as(d, p7, v.vu_generation)
            && VuAbilityGen2::parsed_as(d, p8, v.vu_ability)
            && VuDigitalMapVersion::parsed_as(d, p9, v.vu_digital_map_version)
    }

    open spec fn parse_err(d: Seq<u8>, p: int) -> ParseError {
        let p1 = VuManufacturerName::parse_end(d, p);
        let p2 = VuManufacturerAddress::parse_end(d, p1);
        let p3 = VuPartNumber::parse_end(d, p2);
        let p4 = VuSerialNumberGen2::parse_end(d, p3);
        let p5 = VuSoftwareIdentification::parse_end(d, p4);
        let p6 = VuManufacturingDate::parse_end(d, p5);
        let p7 = VuApprovalNumberGen2::parse_end(d, p6);
        let p8 = GenerationGen2::parse_end(d, p7);
        let p9 = VuAbilityGen2::parse_end(d, p8);
        if !VuManufacturerName::parse_ok(d, p) {
            VuManufacturerName::parse_err(d, p)
        } else if !VuManufacturerAddress::parse_ok(d, p1) {
            VuManufacturerAddress::parse_err(d, p1)
        } else if !VuPartNumber::parse_ok(d, p2) {
            VuPartNumber::parse_err(d, p2)
        } else if !VuSerialNumberGen2::parse_ok(d, p3) {
            VuSerialNumberGen2::parse_err(d, p3)
        } else if !VuSoftwareIdentification::parse_ok(d, p4) {
            VuSoftwareIdentification::parse_err(d, p4)
        } else if !VuManufacturingDate::parse_ok(d, p5) {
            VuManufacturingDate::parse_err(d, p5)
        } else if !VuApprovalNumberGen2::parse_ok(d, p6) {
            VuApprovalNumberGen2::parse_err(d, p6)
        } else if !GenerationGen2::parse_ok(d, p7) {
            GenerationGen2::parse_err(d, p7)
        } else if !VuAbilityGen2::parse_ok(d, p8) {
            VuAbilityGen2::parse_err(d, p8)
        } else if !VuDigitalMapVersion::parse_ok(d, p9) {
            VuDigitalMapVersion::parse_err(d, p9)
        } else {
            ParseError::InvalidValue
        }
    }

    fn parse(cursor: &mut Cursor) -> (res: Result<VuIdentificationGen2V2, ParseError>) {
        VuIdentificationGen2V2::parse(cursor)
    }
}

/// The technical data block of a version 2 download (TREP 35): eight record arrays.
#[derive(Debug)]
pub struct VuCompanyLocksGen2V2 {
    pub vu_identification_record_array: Vec<VuIdentificationGen2V2>,
    pub vu_sensor_paired_record_array: Vec<SensorPairedRecordGen2>,
    pub vu_sensor_external_gnss_coupled_record_array: Vec<SensorExternalGNSSCoupledRecordGen2>,
    pub vu_calibration_record_array: Vec<VuCalibrationRecordGen2V2>,
    pub vu_card_record_array: Vec<VuCardRecordGen2>,
    pub vu_its_consent_record_array: Vec<VuITSConsentRecordGen2>,
    pub vu_power_supply_interruption_record_array: Vec<VuPowerSupplyInterruptionRecordGen2V2>,
    pub signature_record_array: Vec<SignatureGen2>,
}

impl VuCompanyLocksGen2V2 {
    /// Reads a `VuCompanyLocksGen2V2` at the reader's position.
    pub fn parse(cursor: &mut Cursor) -> (res: Result<VuCompanyLocksGen2V2, ParseError>)
        ensures
            final(cursor).data() == old(cursor).data(),
            old(cursor).pos() <= final(cursor).pos(),
            final(cursor).pos() == VuCompanyLocksGen2V2::parse_end(old(cursor).data(), old(cursor).pos()),
            res is Ok <==> VuCompanyLocksGen2V2::parse_ok(old(cursor).data(), old(cursor).pos()),
            res matches Ok(v) ==> VuCompanyLocksGen2V2::parsed_as(old(cursor).data(), old(cursor).pos(), v),
            res matches Err(e) ==> e == VuCompanyLocksGen2V2::parse_err(old(cursor).data(), old(cursor).pos()),
    {
        let vu_identification_record_array = RecordArray::<VuIdentificationGen2V2>::parse(cursor)?.into_inner();
        let vu_sensor_paired_record_array = RecordArray::<SensorPairedRecordGen2>::parse(cursor)?.into_inner();
        let vu_sensor_external_gnss_coupled_record_array = RecordArray::<SensorExternalGNSSCoupledRecordGen2>::parse(cursor)?.into_inner();
        let vu_calibration_record_array = RecordArray::<VuCalibrationRecordGen2V2>::parse(cursor)?.into_inner();
        let vu_card_record_array = RecordArray::<VuCardRecordGen2>::parse(cursor)?.into_inner();
        let vu_its_consent_record_array = RecordArray::<VuITSConsentRecordGen2>::parse(cursor)?.into_inner();
        let vu_power_supply_interruption_record_array = RecordArray::<VuPowerSupplyInterruptionRecordGen2V2>::parse(cursor)?.into_inner();
        let signature_record_array = RecordArray::<SignatureGen2>::parse_dyn_size(cursor)?.into_inner();
        Ok(VuCompanyLocksGen2V2 { vu_identification_record_array, vu_sensor_paired_record_array, vu_sensor_external_gnss_coupled_record_array, vu_calibration_record_array, vu_card_record_array, vu_its_consent_record_array, vu_power_supply_interruption_record_array, signature_record_array })
    }
}

impl Parse for VuCompanyLocksGen2V2 {
    closed spec fn parse_ok(d: Seq<u8>, p: int) -> bool {
        let p1 = array_end(d, p);
        let p2 = array_end(d, p1);
        let p3 = array_end(d, p2);
        let p4 = array_end(d, p3);
        let p5 = array_end(d, p4);
        let p6 = array_end(d, p5);
        let p7 = array_end(d, p6);
        array_ok::<VuIdentificationGen2V2>(d, p)
            && array_ok::<SensorPairedRecordGen2>(d, p1)
            && array_ok::<SensorExternalGNSSCoupledRecordGen2>(d, p2)
            && array_ok::<VuCalibrationRecordGen2V2>(d, p3)
            && array_ok::<VuCardRecordGen2>(d, p4)
            && array_ok::<VuITSConsentRecordGen2>(d, p5)
            && array_ok::<VuPowerSupplyInterruptionRecordGen2V2>(d, p6)
            && dyn_array_ok::<SignatureGen2>(d, p7)
    }

    closed spec fn parse_end(d: Seq<u8>, p: int) -> int {
        let p1 = array_end(d, p);
        let p2 = array_end(d, p1);
        let p3 = array_end(d, p2);
        let p4 = array_end(d, p3);
        let p5 = array_end(d, p4);
        let p6 = array_end(d, p5);
        let p7 = array_end(d, p6);
        let p8 = array_end(d, p7);
        if !array_ok::<VuIdentificationGen2V2>(d, p) {
            p1
        } else if !array_ok::<SensorPairedRecordGen2>(d, p1) {
            p2
        } else if !array_ok::<SensorExternalGNSSCoupledRecordGen2>(d, p2) {
            p3
        } else if !array_ok::<VuCalibrationRecordGen2V2>(d, p3) {
            p4
        } else if !array_ok::<VuCardRecordGen2>(d, p4) {
            p5
        } else if !array_ok::<VuITSConsentRecordGen2>(d, p5) {
            p6
        } else if !array_ok::<VuPowerSupplyInterruptionRecordGen2V2>(d, p6) {
            p7
        } else if !dyn_array_ok::<SignatureGen2>(d, p7) {
            p8
        } else {
            p8
        }
    }

    closed spec fn parsed_as(d: Seq<u8>, p: int, v: VuCompanyLocksGen2V2) -> bool {
        let p1 = array_end(d, p);
        let p2 = array_end(d, p1);
        let p3 = array_end(d, p2);
        let p4 = array_end(d, p3);
        let p5 = array_end(d, p4);
        let p6 = array_end(d, p5);
        let p7 = array_end(d, p6);
        array_as::<VuIdentificationGen2V2>(d, p, v.vu_identification_record_array@)
            && array_as::<SensorPairedRecordGen2>(d, p1, v.vu_sensor_paired_record_array@)
            && array_as::<SensorExternalGNSSCoupledRecordGen2>(d, p2, v.vu_sensor_external_gnss_coupled_record_array@)
            && array_as::<VuCalibrationRecordGen2V2>(d, p3, v.vu_calibration_record_array@)
            && array_as::<VuCardRecordGen2>(d, p4, v.vu_card_record_array@)
            && array_as::<VuITSConsentRecordGen2>(d, p5, v.vu_its_consent_record_array@)
            && array_as::<VuPowerSupplyInterruptionRecordGen2V2>(d, p6, v.vu_power_supply_interruption_record_array@)
            && dyn_array_as::<SignatureGen2>(d, p7, v.signature_record_array@)
    }

    closed spec fn parse_err(d: Seq<u8>, p: int) -> ParseError {
        let p1 = array_end(d, p);
        let p2 = array_end(d, p1);
        let p3 = array_end(d, p2);
        let p4 = array_end(d, p3);
        let p5 = array_end(d, p4);
        let p6 = array_end(d, p5);
        let p7 = array_end(d, p6);
        if !array_ok::<VuIdentificationGen2V2>(d, p) {
            array_err::<VuIdentificationGen2V2>(d, p)
        } else if !array_ok::<SensorPairedRecordGen2>(d, p1) {
            array_err::<SensorPairedRecordGen2>(d, p1)
        } else if !array_ok::<SensorExternalGNSSCoupledRecordGen2>(d, p2) {
            array_err::<SensorExternalGNSSCoupledRecordGen2>(d, p2)
        } else if !array_ok::<VuCalibrationRecordGen2V2>(d, p3) {
            array_err::<VuCalibrationRecordGen2V2>(d, p3)
        } else if !array_ok::<VuCardRecordGen2>(d, p4) {
            array_err::<VuCardRecordGen2>(d, p4)
        } else if !array_ok::<VuITSConsentRecordGen2>(d, p5) {
            array_err::<VuITSConsentRecordGen2>(d, p5)
        } else if !array_ok::<VuPowerSupplyInterruptionRecordGen2V2>(d, p6) {
            array_err::<VuPowerSupplyInterruptionRecordGen2V2>(d, p6)
        } else if !dyn_array_ok::<SignatureGen2>(d, p7) {
            dyn_array_err::<SignatureGen2>(d, p7)
        } else {
            ParseError::InvalidValue
        }
    }

    fn parse(cursor: &mut Cursor) -> (res: Result<VuCompanyLocksGen2V2, ParseError>) {
        VuCompanyLocksGen2V2::parse(cursor)
    }
}

impl VuCompanyLocksGen2V2 {
    /// What reading a `VuCompanyLocksGen2V2` at position `p` of `d` means, spelled out
    /// for readers outside this module.
    pub proof fn lemma_parse_spec(d: Seq<u8>, p: int, v: VuCompanyLocksGen2V2)
        ensures
            VuCompanyLocksGen2V2::parse_ok(d, p) == ({
                let p1 = array_end(d, p);
                let p2 = array_end(d, p1);
                let p3 = array_end(d, p2);
                let p4 = array_end(d, p3);
                let p5 = array_end(d, p4);
                let p6 = array_end(d, p5);
                let p7 = array_end(d, p6);
                array_ok::<VuIdentificationGen2V2>(d, p)
            && array_ok::<SensorPairedRecordGen2>(d, p1)
            && array_ok::<SensorExternalGNSSCoupledRecordGen2>(d, p2)
            && array_ok::<VuCalibrationRecordGen2V2>(d, p3)
            && array_ok::<VuCardRecordGen2>(d, p4)
            && array_ok::<VuITSConsentRecordGen2>(d, p5)
            && array_ok::<VuPowerSupplyInterruptionRecordGen2V2>(d, p6)
            && dyn_array_ok::<SignatureGen2>(d, p7)
            }),
            VuCompanyLocksGen2V2::parse_end(d, p) == ({
                let p1 = array_end(d, p);
                let p2 = array_end(d, p1);
                let p3 = array_end(d, p2);
                let p4 = array_end(d, p3);
                let p5 = array_end(d, p4);
                let p6 = array_end(d, p5);
                let p7 = array_end(d, p6);
                let p8 = array_end(d, p7);
                if !array_ok::<VuIdentificationGen2V2>(d, p) {
            p1
        } else if !array_ok::<SensorPairedRecordGen2>(d, p1) {
            p2
        } else if !array_ok::<SensorExternalGNSSCoupledRecordGen2>(d, p2) {
            p3
        } else if !array_ok::<VuCalibrationRecordGen2V2>(d, p3) {
            p4
        } else if !array_ok::<VuCardRecordGen2>(d, p4) {
            p5
        } else if !array_ok::<VuITSConsentRecordGen2>(d, p5) {
            p6
        } else if !array_ok::<VuPowerSupplyInterruptionRecordGen2V2>(d, p6) {
            p7
        } else if !dyn_array_ok::<SignatureGen2>(d, p7) {
            p8
        } else {
            p8
        }
            }),
            VuCompanyLocksGen2V2::parsed_as(d, p, v) == ({
                let p1 = array_end(d, p);
                let p2 = array_end(d, p1);
                let p3 = array_end(d, p2);
                let p4 = array_end(d, p3);
                let p5 = array_end(d, p4);
                let p6 = array_end(d, p5);
                let p7 = array_end(d, p6);
                array_as::<VuIdentificationGen2V2>(d, p, v.vu_identification_record_array@)
            && array_as::<SensorPairedRecordGen2>(d, p1, v.vu_sensor_paired_record_array@)
            && array_as::<SensorExternalGNSSCoupledRecordGen2>(d, p2, v.vu_sensor_external_gnss_coupled_record_array@)
            && array_as::<VuCalibrationRecordGen2V2>(d, p3, v.vu_calibration_record_array@)
            && array_as::<VuCardRecordGen2>(d, p4, v.vu_card_record_array@)
            && array_as::<VuITSConsentRecordGen2>(d, p5, v.vu_its_consent_record_array@)
            && array_as::<VuPowerSupplyInterruptionRecordGen2V2>(d, p6, v.vu_power_supply_interruption_record_array@)
            && dyn_array_as::<SignatureGen2>(d, p7, v.signature_record_array@)
            }),
            VuCompanyLocksGen2V2::parse_err(d, p) == ({
                let p1 = array_end(d, p);
                let p2 = array_end(d, p1);
                let p3 = array_end(d, p2);
                let p4 = array_end(d, p3);
                let p5 = array_end(d, p4);
                let p6 = array_end(d, p5);
                let p7 = array_end(d, p6);
                if !array_ok::<VuIdentificationGen2V2>(d, p) {
            array_err::<VuIdentificationGen2V2>(d, p)
        } else if !array_ok::<SensorPairedRecordGen2>(d, p1) {
            array_err::<SensorPairedRecordGen2>(d, p1)
        } else if !array_ok::<SensorExternalGNSSCoupledRecordGen2>(d, p2) {
            array_err::<SensorExternalGNSSCoupledRecordGen2>(d, p2)
        } else if !array_ok::<VuCalibrationRecordGen2V2>(d, p3) {
            array_err::<VuCalibrationRecordGen2V2>(d, p3)
        } else if !array_ok::<VuCardRecordGen2>(d, p4) {
            array_err::<VuCardRecordGen2>(d, p4)
        } else if !array_ok::<VuITSConsentRecordGen2>(d, p5) {
            array_err::<VuITSConsentRecordGen2>(d, p5)
        } else if !array_ok::<VuPowerSupplyInterruptionRecordGen2V2>(d, p6) {
            array_err::<VuPowerSupplyInterruptionRecordGen2V2>(d, p6)
        } else if !dyn_array_ok::<SignatureGen2>(d, p7) {
            dyn_array_err::<SignatureGen2>(d, p7)
        } else {
            ParseError::InvalidValue
        }
            }),
    {
    }
}

/// VuCalibrationRecord (appendix 2.174) as version 2 defines it; the 24 bytes after the seal data are passed over.
#[derive(Debug)]
pub struct VuCalibrationRecordGen2V2 {
    pub calibration_purpose: CalibrationPurposeGen2,
    pub workshop_name: Name,
    pub workshop_address: Address,
    pub workshop_card_number: FullCardNumberGen2,
    pub workshop_card_expiry_date: Option<TimeReal>,
    pub vehicle_identification_number: Option<VehicleIdentificationNumber>,
    pub vehicle_registration_identification: Option<VehicleRegistrationIdentification>,
    pub w_vehicle_characteristic_constant: WVehicleCharacteristicConstant,
    pub k_constant_of_recording_equipment: KConstantOfRecordingEquipment,
    pub l_tyre_circumference: LTyreCircumference,
    pub tyre_size: TyreSize,
    pub authorised_speed: SpeedAuthorised,
    pub old_odometer_value: OdometerShort,
    pub new_odometer_value: OdometerShort,
    pub old_time_value: Option<TimeReal>,
    pub new_time_value: Option<TimeReal>,
    pub next_calibration_date: Option<TimeReal>,
    pub seal_data_vu: SealDataVuGen2,
    pub by_default_load_type: LoadType,
    pub calibration_country: NationNumeric,
    pub calibration_country_timestamp: TimeReal,
}

impl VuCalibrationRecordGen2V2 {
    /// Reads a `VuCalibrationRecordGen2V2` at the reader's position.
    pub fn parse(cursor: &mut Cursor) -> (res: Result<VuCalibrationRecordGen2V2, ParseError>)
        ensures
            final(cursor).data() == old(cursor).data(),
            old(cursor).pos() <= final(cursor).pos(),
            final(cursor).pos() == VuCalibrationRecordGen2V2::parse_end(old(cursor).data(), old(cursor).pos()),
            res is Ok <==> VuCalibrationRecordGen2V2::parse_ok(old(cursor).data(), old(cursor).pos()),
            res matches Ok(v) ==> VuCalibrationRecordGen2V2::parsed_as(old(cursor).data(), old(cursor).pos(), v),
            res matches Err(e) ==> e == VuCalibrationRecordGen2V2::parse_err(old(cursor).data(), old(cursor).pos()),
    {
        let calibration_purpose = CalibrationPurposeGen2::parse(cursor)?;
        let workshop_name = Name::parse(cursor)?;
        let workshop_address = Address::parse(cursor)?;
        let workshop_card_number = FullCardNumberGen2::parse(cursor)?;
        let workshop_card_expiry_date = parse_optional::<TimeReal>(cursor);
        let vehicle_identification_number = parse_optional::<VehicleIdentificationNumber>(cursor);
        let vehicle_registration_identification = parse_optional::<VehicleRegistrationIdentification>(cursor);
        let w_vehicle_characteristic_constant = WVehicleCharacteristicConstant::parse(cursor)?;
        let k_constant_of_recording_equipment = KConstantOfRecordingEquipment::parse(cursor)?;
        let l_tyre_circumference = LTyreCircumference::parse(cursor)?;
        let tyre_size = TyreSize::parse(cursor)?;
        let authorised_speed = SpeedAuthorised::parse(cursor)?;
        let old_odometer_value = OdometerShort::parse(cursor)?;
        let new_odometer_value = OdometerShort::parse(cursor)?;
        let old_time_value = parse_optional::<TimeReal>(cursor);
        let new_time_value = parse_optional::<TimeReal>(cursor);
        let next_calibration_date = parse_optional::<TimeReal>(cursor);
        let seal_data_vu = SealDataVuGen2::parse(cursor)?;
        cursor.consume(24);
        let by_default_load_type = LoadType::parse(cursor)?;
        let calibration_country = NationNumeric::parse(cursor)?;
        let calibration_country_timestamp = TimeReal::parse(cursor)?;
        Ok(VuCalibrationRecordGen2V2 { calibration_purpose, workshop_name, workshop_address, workshop_card_number, workshop_card_expiry_date, vehicle_identification_number, vehicle_registration_identification, w_vehicle_characteristic_constant, k_constant_of_recording_equipment, l_tyre_circumference, tyre_size, authorised_speed, old_odometer_value, new_odometer_value, old_time_value, new_time_value, next_calibration_date, seal_data_vu, by_default_load_type, calibration_country, calibration_country_timestamp })
    }
}

impl Parse for VuCalibrationRecordGen2V2 {
    open spec fn parse_ok(d: Seq<u8>, p: int) -> bool {
        let p1 = CalibrationPurposeGen2::parse_end(d, p);
        let p2 = Name::parse_end(d, p1);
        let p3 = Address::parse_end(d, p2);
        let p4 = FullCardNumberGen2::parse_end(d, p3);
        let p5 = TimeReal::parse_end(d, p4);
        let p6 = VehicleIdentificationNumber::parse_end(d, p5);
        let p7 = VehicleRegistrationIdentification::parse_end(d, p6);
        let p8 = WVehicleCharacteristicConstant::parse_end(d, p7);
        let p9 = KConstantOfRecordingEquipment::parse_end(d, p8);
        let p10 = LTyreCircumference::parse_end(d, p9);
        let p11 = TyreSize::parse_end(d, p10);
        let p12 = SpeedAuthorised::parse_end(d, p11);
        let p13 = OdometerShort::parse_end(d, p12);
        let p14 = OdometerShort::parse_end(d, p13);
        let p15 = TimeReal::parse_end(d, p14);
        let p16 = TimeReal::parse_end(d, p15);
        let p17 = TimeReal::parse_end(d, p16);
        let p18 = SealDataVuGen2::parse_end(d, p17);
        let p19 = (if p18 + 24 <= d.len() { p18 + 24 } else { d.len() as int });
        let p20 = LoadType::parse_end(d, p19);
        let p21 = NationNumeric::parse_end(d, p20);
        CalibrationPurposeGen2::parse_ok(d, p)
            && Name::parse_ok(d, p1)
            && Address::parse_ok(d, p2)
            && FullCardNumberGen2::parse_ok(d, p3)
            && WVehicleCharacteristicConstant::parse_ok(d, p7)
            && KConstantOfRecordingEquipment::parse_ok(d, p8)
            && LTyreCircumference::parse_ok(d, p9)
            && TyreSize::parse_ok(d, p10)
            && SpeedAuthorised::parse_ok(d, p11)
            && OdometerShort::parse_ok(d, p12)
            && OdometerShort::parse_ok(d, p13)
            && SealDataVuGen2::parse_ok(d, p17)
            && LoadType::parse_ok(d, p19)
            && NationNumeric::parse_ok(d, p20)
            && TimeReal::parse_ok(d, p21)
    }

    open spec fn parse_end(d: Seq<u8>, p: int) -> int {
        let p1 = CalibrationPurposeGen2::parse_end(d, p);
        let p2 = Name::parse_end(d, p1);
        let p3 = Address::parse_end(d, p2);
        let p4 = FullCardNumberGen2::parse_end(d, p3);
        let p5 = TimeReal::parse_end(d, p4);
        let p6 = VehicleIdentificationNumber::parse_end(d, p5);
        let p7 = VehicleRegistrationIdentification::parse_end(d, p6);
        let p8 = WVehicleCharacteristicConstant::parse_end(d, p7);
        let p9 = KConstantOfRecordingEquipment::parse_end(d, p8);
        let p10 = LTyreCircumference::parse_end(d, p9);
        let p11 = TyreSize::parse_end(d, p10);
        let p12 = SpeedAuthorised::parse_end(d, p11);
        let p13 = OdometerShort::parse_end(d, p12);
        let p14 = OdometerShort::parse_end(d, p13);
        let p15 = TimeReal::parse_end(d, p14);
        let p16 = TimeReal::parse_end(d, p15);
        let p17 = TimeReal::parse_end(d, p16);
        let p18 = SealDataVuGen2::parse_end(d, p17);
        let p19 = (if p18 + 24 <= d.len() { p18 + 24 } else { d.len() as int });
        let p20 = LoadType::parse_end(d, p19);
        let p21 = NationNumeric::parse_end(d, p20);
        let p22 = TimeReal::parse_end(d, p21);
        if !CalibrationPurposeGen2::parse_ok(d, p) {
            p1
        } else if !Name::parse_ok(d, p1) {
            p2
        } else if !Address::parse_ok(d, p2) {
            p3
        } else if !FullCardNumberGen2::parse_ok(d, p3) {
            p4
        } else if !WVehicleCharacteristicConstant::parse_ok(d, p7) {
            p8
        } else if !KConstantOfRecordingEquipment::parse_ok(d, p8) {
            p9
        } else if !LTyreCircumference::parse_ok(d, p9) {
            p10
        } else if !TyreSize::parse_ok(d, p10) {
            p11
        } else if !SpeedAuthorised::parse_ok(d, p11) {
            p12
        } else if !OdometerShort::parse_ok(d, p12) {
            p13
        } else if !OdometerShort::parse_ok(d, p13) {
            p14
        } else if !SealDataVuGen2::parse_ok(d, p17) {
            p18
        } else if !LoadType::parse_ok(d, p19) {
            p20
        } else if !NationNumeric::parse_ok(d, p20) {
            p21
        } else if !TimeReal::parse_ok(d, p21) {
            p22
        } else {
            p22
        }
    }

    open spec fn parsed_as(d: Seq<u8>, p: int, v: VuCalibrationRecordGen2V2) -> bool {
        let p1 = CalibrationPurposeGen2::parse_end(d, p);
        let p2 = Name::parse_end(d, p1);
        let p3 = Address::parse_end(d, p2);
        let p4 = FullCardNumberGen2::parse_end(d, p3);
        let p5 = TimeReal::parse_end(d, p4);
        let p6 = VehicleIdentificationNumber::parse_end(d, p5);
        let p7 = VehicleRegistrationIdentification::parse_end(d, p6);
        let p8 = WVehicleCharacteristicConstant::parse_end(d, p7);
        let p9 = KConstantOfRecordingEquipment::parse_end(d, p8);
        let p10 = LTyreCircumference::parse_end(d, p9);
        let p11 = TyreSize::parse_end(d, p10);
        let p12 = SpeedAuthorised::parse_end(d, p11);
        let p13 = OdometerShort::parse_end(d, p12);
        let p14 = OdometerShort::parse_end(d, p13);
        let p15 = TimeReal::parse_end(d, p14);
        let p16 = TimeReal::parse_end(d, p15);
        let p17 = TimeReal::parse_end(d, p16);
        let p18 = SealDataVuGen2::parse_end(d, p17);
        let p19 = (if p18 + 24 <= d.len() { p18 + 24 } else { d.len() as int });
        let p20 = LoadType::parse_end(d, p19);
        let p21 = NationNumeric::parse_end(d, p20);
        CalibrationPurposeGen2::parsed_as(d, p, v.calibration_purpose)
            && Name::parsed_as(d, p1, v.workshop_name)
            && Address::parsed_as(d, p2, v.workshop_address)
            && FullCardNumberGen2::parsed_as(d, p3, v.workshop_card_number)
            && optional_as::<TimeReal>(d, p4, v.workshop_card_expiry_date)
            && optional_as::<VehicleIdentificationNumber>(d, p5, v.vehicle_identification_number)
            && optional_as::<VehicleRegistrationIdentification>(d, p6, v.vehicle_registration_identification)
            && WVehicleCharacteristicConstant::parsed_as(d, p7, v.w_vehicle_characteristic_constant)
            && KConstantOfRecordingEquipment::parsed_as(d, p8, v.k_constant_of_recording_equipment)
            && LTyreCircumference::parsed_as(d, p9, v.l_tyre_circumference)
            && TyreSize::parsed_as(d, p10, v.tyre_size)
            && SpeedAuthorised::parsed_as(d, p11, v.authorised_speed)
            && OdometerShort::parsed_as(d, p12, v.old_odometer_value)
            && OdometerShort::parsed_as(d, p13, v.new_odometer_value)
            && optional_as::<TimeReal>(d, p14, v.old_time_value)
            && optional_as::<TimeReal>(d, p15, v.new_time_value)
            && optional_as::<TimeReal>(d, p16, v.next_calibration_date)
            && SealDataVuGen2::parsed_as(d, p17, v.seal_data_vu)
            && LoadType::parsed_as(d, p19, v.by_default_load_type)
            && NationNumeric::parsed_as(d, p20, v.calibration_country)
            && TimeReal::parsed_as(d, p21, v.calibration_country_timestamp)
    }

    open spec fn parse_err(d: Seq<u8>, p: int) -> ParseError {
        let p1 = CalibrationPurposeGen2::parse_end(d, p);
        let p2 = Name::parse_end(d, p1);
        let p3 = Address::parse_end(d, p2);
        let p4 = FullCardNumberGen2::parse_end(d, p3);
        let p5 = TimeReal::parse_end(d, p4);
        let p6 = VehicleIdentificationNumber::parse_end(d, p5);
        let p7 = VehicleRegistrationIdentification::parse_end(d, p6);
        let p8 = WVehicleCharacteristicConstant::parse_end(d, p7);
        let p9 = KConstantOfRecordingEquipment::parse_end(d, p8);
        let p10 = LTyreCircumference::parse_end(d, p9);
        let p11 = TyreSize::parse_end(d, p10);
        let p12 = SpeedAuthorised::parse_end(d, p11);
        let p13 = OdometerShort::parse_end(d, p12);
        let p14 = OdometerShort::parse_end(d, p13);
        let p15 = TimeReal::parse_end(d, p14);
        let p16 = TimeReal::parse_end(d, p15);
        let p17 = TimeReal::parse_end(d, p16);
        let p18 = SealDataVuGen2::parse_end(d, p17);
        let p19 = (if p18 + 24 <= d.len() { p18 + 24 } else { d.len() as int });
        let p20 = LoadType::parse_end(d, p19);
        let p21 = NationNumeric::parse_end(d, p20);
        if !CalibrationPurposeGen2::parse_ok(d, p) {
            CalibrationPurposeGen2::parse_err(d, p)
        } else if !Name::parse_ok(d, p1) {
            Name::parse_err(d, p1)
        } else if !Address::parse_ok(d, p2) {
            Address::parse_err(d, p2)
        } else if !FullCardNumberGen2::parse_ok(d, p3) {
            FullCardNumberGen2::parse_err(d, p3)
        } else if !WVehicleCharacteristicConstant::parse_ok(d, p7) {
            WVehicleCharacteristicConstant::parse_err(d, p7)
        } else if !KConstantOfRecordingEquipment::parse_ok(d, p8) {
            KConstantOfRecordingEquipment::parse_err(d, p8)
        } else if !LTyreCircumference::parse_ok(d, p9) {
            LTyreCircumference::parse_err(d, p9)
        } else if !TyreSize::parse_ok(d, p10) {
            TyreSize::parse_err(d, p10)
        } else if !SpeedAuthorised::parse_ok(d, p11) {
            SpeedAuthorised::parse_err(d, p11)
        } else if !OdometerShort::parse_ok(d, p12) {
            OdometerShort::parse_err(d, p12)
        } else if !OdometerShort::parse_ok(d, p13) {
            OdometerShort::parse_err(d, p13)
        } else if !SealDataVuGen2::parse_ok(d, p17) {
            SealDataVuGen2::parse_err(d, p17)
        } else if !LoadType::parse_ok(d, p19) {
            LoadType::parse_err(d, p19)
        } else if !NationNumeric::parse_ok(d, p20) {
            NationNumeric::parse_err(d, p20)
        } else if !TimeReal::parse_ok(d, p21) {
            TimeReal::parse_err(d, p21)
        } else {
            ParseError::InvalidValue
        }
    }

    fn parse(cursor: &mut Cursor) -> (res: Result<VuCalibrationRecordGen2V2, ParseError>) {
        VuCalibrationRecordGen2V2::parse(cursor)
    }
}

/// EventFaultType (appendix 2.70) as version 2 defines it.
#[derive(Debug, Clone, Copy, PartialEq, Eq, Structural)]
pub enum EventFaultTypeGen2V2 {
    NoFurtherDetails,
    InsertionOfNonValidCard,
    CardConflict,
    TimeOverlap,
    DrivingWithoutAppropriateCard,
    CardInsertionWhileDriving,
    LastCardSessionNotCorrectlyClosed,
    OverSpeeding,
    PowerSupplyInterruption,
    MotionDataError,
    VehicleMotionConflict,
    TimeConflict,
    CommunicationErrorWithRemoteCommunicationFacility,
    AbsenceOfPositionInfoFromGNSSReceiver,
    CommunicationErrorWithExternalGNSSFacility,
    GNSSAnomaly,
    VUSecurityBreachAttemptNoFurtherDetails,
    MotionSensorAuthenticationFailure,
    TachographCardAuthenticationFailure,
    UnauthorizedChangeOfMotionSensor,
    CardDataInputIntegrityError,
    StoredUserDataIntegrityError,
    InternalDataTransferError,
    UnauthorizedCaseOpening,
    HardwareSabotage,
    TamperDetectionOfGNSS,
    ExternalGNSSFacilityAuthenticationFailure,
    ExternalGNSSFacilityCertificateExpired,
    InconsistencyBetweenMotionDataAndStoredDriverActivityData,
    RFU,
    SensorSecurityBreachAttemptNoFurtherDetails,
    SensorAuthenticationFailure,
    SensorStoredDataIntegrityError,
    SensorInternalDataTransferError,
    SensorUnauthorizedCaseOpening,
    SensorHardwareSabotage,
    ControlDeviceFaultNoFurtherDetails,
    VUInternalFault,
    PrinterFault,
    DisplayFault,
    DownloadingFault,
    SensorFault,
    InternalGNSSReceiver,
    ExternalGNSSFacility,
    RemoteCommunicationFacility,
    ITSInterface,
    InternalSensorFault,
    CardFaultNoFurtherDetails,
    ManufacturerSpecific,
}

impl EventFaultTypeGen2V2 {
    /// The value that the byte `b` encodes, if any.
    pub open spec fn from_byte(b: u8) -> Option<EventFaultTypeGen2V2> {
        if b == 0x00 {
            Some(EventFaultTypeGen2V2::NoFurtherDetails)
        } else if b == 0x01 {
            Some(EventFaultTypeGen2V2::InsertionOfNonValidCard)
        } else if b == 0x02 {
            Some(EventFaultTypeGen2V2::CardConflict)
        } else if b == 0x03 {
            Some(EventFaultTypeGen2V2::TimeOverlap)
        } else if b == 0x04 {
            Some(EventFaultTypeGen2V2::DrivingWithoutAppropriateCard)
        } else if b == 0x05 {
            Some(EventFaultTypeGen2V2::CardInsertionWhileDriving)
        } else if b == 0x06 {
            Some(EventFaultTypeGen2V2::LastCardSessionNotCorrectlyClosed)
        } else if b == 0x07 {
            Some(EventFaultTypeGen2V2::OverSpeeding)
        } else if b == 0x08 {
            Some(EventFaultTypeGen2V2::PowerSupplyInterruption)
        } else if b == 0x09 {
            Some(EventFaultTypeGen2V2::MotionDataError)
        } else if b == 0x0A {
            Some(EventFaultTypeGen2V2::VehicleMotionConflict)
        } else if b == 0x0B {
            Some(EventFaultTypeGen2V2::TimeConflict)
        } else if b == 0x0C {
            Some(EventFaultTypeGen2V2::CommunicationErrorWithRemoteCommunicationFacility)
        } else if b == 0x0D {
            Some(EventFaultTypeGen2V2::AbsenceOfPositionInfoFromGNSSReceiver)
        } else if b == 0x0E {
            Some(EventFaultTypeGen2V2::CommunicationErrorWithExternalGNSSFacility)
        } else if b == 0x0F {
            Some(EventFaultTypeGen2V2::GNSSAnomaly)
        } else if b == 0x10 {
            Some(EventFaultTypeGen2V2::VUSecurityBreachAttemptNoFurtherDetails)
        } else if b == 0x11 {
            Some(EventFaultTypeGen2V2::MotionSensorAuthenticationFailure)
        } else if b == 0x12 {
            Some(EventFaultTypeGen2V2::TachographCardAuthenticationFailure)
        } else if b == 0x13 {
            Some(EventFaultTypeGen2V2::UnauthorizedChangeOfMotionSensor)
        } else if b == 0x14 {
            Some(EventFaultTypeGen2V2::CardDataInputIntegrityError)
        } else if b == 0x15 {
            Some(EventFaultTypeGen2V2::StoredUserDataIntegrityError)
        } else if b == 0x16 {
            Some(EventFaultTypeGen2V2::InternalDataTransferError)
        } else if b == 0x17 {
            Some(EventFaultTypeGen2V2::UnauthorizedCaseOpening)
        } else if b == 0x18 {
            Some(EventFaultTypeGen2V2::HardwareSabotage)
        } else if b == 0x19 {
            Some(EventFaultTypeGen2V2::TamperDetectionOfGNSS)
        } else if b == 0x1A {
            Some(EventFaultTypeGen2V2::ExternalGNSSFacilityAuthenticationFailure)
        } else if b == 0x1B {
            Some(EventFaultTypeGen2V2::ExternalGNSSFacilityCertificateExpired)
        } else if b == 0x1C {
            Some(EventFaultTypeGen2V2::InconsistencyBetweenMotionDataAndStoredDriverActivityData)
        } else if 0x1D <= b && b <= 0x1F {
            Some(EventFaultTypeGen2V2::RFU)
        } else if b == 0x20 {
            Some(EventFaultTypeGen2V2::SensorSecurityBreachAttemptNoFurtherDetails)
        } else if b == 0x21 {
            Some(EventFaultTypeGen2V2::SensorAuthenticationFailure)
        } else if b == 0x22 {
            Some(EventFaultTypeGen2V2::SensorStoredDataIntegrityError)
        } else if b == 0x23 {
            Some(EventFaultTypeGen2V2::SensorInternalDataTransferError)
        } else if b == 0x24 {
            Some(EventFaultTypeGen2V2::SensorUnauthorizedCaseOpening)
        } else if b == 0x25 {
            Some(EventFaultTypeGen2V2::SensorHardwareSabotage)
        } else if 0x26 <= b && b <= 0x2F {
            Some(EventFaultTypeGen2V2::RFU)
        } else if b == 0x30 {
            Some(EventFaultTypeGen2V2::ControlDeviceFaultNoFurtherDetails)
        } else if b == 0x31 {
            Some(EventFaultTypeGen2V2::VUInternalFault)
        } else if b == 0x32 {
            Some(EventFaultTypeGen2V2::PrinterFault)
        } else if b == 0x33 {
            Some(EventFaultTypeGen2V2::DisplayFault)
        } else if b == 0x34 {
            Some(EventFaultTypeGen2V2::DownloadingFault)
        } else if b == 0x35 {
            Some(EventFaultTypeGen2V2::SensorFault)
        } else if b == 0x36 {
            Some(EventFaultTypeGen2V2::InternalGNSSReceiver)
        } else if b == 0x37 {
            Some(EventFaultTypeGen2V2::ExternalGNSSFacility)
        } else if b == 0x38 {
            Some(EventFaultTypeGen2V2::RemoteCommunicationFacility)
        } else if b == 0x39 {
            Some(EventFaultTypeGen2V2::ITSInterface)
        } else if b == 0x3A {
            Some(EventFaultTypeGen2V2::InternalSensorFault)
        } else if 0x3B <= b && b <= 0x3F {
            Some(EventFaultTypeGen2V2::RFU)
        } else if b == 0x40 {
            Some(EventFaultTypeGen2V2::CardFaultNoFurtherDetails)
        } else if 0x41 <= b && b <= 0x4F {
            Some(EventFaultTypeGen2V2::RFU)
        } else if 0x50 <= b && b <= 0x7F {
            Some(EventFaultTypeGen2V2::RFU)
        } else {
            Some(EventFaultTypeGen2V2::ManufacturerSpecific)
        }
    }

    /// Decodes one byte.
    pub fn decode(b: u8) -> (r: Option<EventFaultTypeGen2V2>)
        ensures
            r == EventFaultTypeGen2V2::from_byte(b),
    {
        if b == 0x00 {
            Some(EventFaultTypeGen2V2::NoFurtherDetails)
        } else if b == 0x01 {
            Some(EventFaultTypeGen2V2::InsertionOfNonValidCard)
        } else if b == 0x02 {
            Some(EventFaultTypeGen2V2::CardConflict)
        } else if b == 0x03 {
            Some(EventFaultTypeGen2V2::TimeOverlap)
        } else if b == 0x04 {
            Some(EventFaultTypeGen2V2::DrivingWithoutAppropriateCard)
        } else if b == 0x05 {
            Some(EventFaultTypeGen2V2::CardInsertionWhileDriving)
        } else if b == 0x06 {
            Some(EventFaultTypeGen2V2::LastCardSessionNotCorrectlyClosed)
        } else if b == 0x07 {
            Some(EventFaultTypeGen2V2::OverSpeeding)
        } else if b == 0x08 {
            Some(EventFaultTypeGen2V2::PowerSupplyInterruption)
        } else if b == 0x09 {
            Some(EventFaultTypeGen2V2::MotionDataError)
        } else if b == 0x0A {
            Some(EventFaultTypeGen2V2::VehicleMotionConflict)
        } else if b == 0x0B {
            Some(EventFaultTypeGen2V2::TimeConflict)
        } else if b == 0x0C {
            Some(EventFaultTypeGen2V2::CommunicationErrorWithRemoteCommunicationFacility)
        } else if b == 0x0D {
            Some(EventFaultTypeGen2V2::AbsenceOfPositionInfoFromGNSSReceiver)
        } else if b == 0x0E {
            Some(EventFaultTypeGen2V2::CommunicationErrorWithExternalGNSSFacility)
        } else if b == 0x0F {
            Some(EventFaultTypeGen2V2::GNSSAnomaly)
        } else if b == 0x10 {
            Some(EventFaultTypeGen2V2::VUSecurityBreachAttemptNoFurtherDetails)
        } else if b == 0x11 {
            Some(EventFaultTypeGen2V2::MotionSensorAuthenticationFailure)
        } else if b == 0x12 {
            Some(EventFaultTypeGen2V2::TachographCardAuthenticationFailure)
        } else if b == 0x13 {
            Some(EventFaultTypeGen2V2::UnauthorizedChangeOfMotionSensor)
        } else if b == 0x14 {
            Some(EventFaultTypeGen2V2::CardDataInputIntegrityError)
        } else if b == 0x15 {
            Some(EventFaultTypeGen2V2::StoredUserDataIntegrityError)
        } else if b == 0x16 {
            Some(EventFaultTypeGen2V2::InternalDataTransferError)
        } else if b == 0x17 {
            Some(EventFaultTypeGen2V2::UnauthorizedCaseOpening)
        } else if b == 0x18 {
            Some(EventFaultTypeGen2V2::HardwareSabotage)
        } else if b == 0x19 {
            Some(EventFaultTypeGen2V2::TamperDetectionOfGNSS)
        } else if b == 0x1A {
            Some(EventFaultTypeGen2V2::ExternalGNSSFacilityAuthenticationFailure)
        } else if b == 0x1B {
            Some(EventFaultTypeGen2V2::ExternalGNSSFacilityCertificateExpired)
        } else if b == 0x1C {
            Some(EventFaultTypeGen2V2::InconsistencyBetweenMotionDataAndStoredDriverActivityData)
        } else if 0x1D <= b && b <= 0x1F {
            Some(EventFaultTypeGen2V2::RFU)
        } else if b == 0x20 {
            Some(EventFaultTypeGen2V2::SensorSecurityBreachAttemptNoFurtherDetails)
        } else if b == 0x21 {
            Some(EventFaultTypeGen2V2::SensorAuthenticationFailure)
        } else if b == 0x22 {
            Some(EventFaultTypeGen2V2::SensorStoredDataIntegrityError)
        } else if b == 0x23 {
            Some(EventFaultTypeGen2V2::SensorInternalDataTransferError)
        } else if b == 0x24 {
            Some(EventFaultTypeGen2V2::SensorUnauthorizedCaseOpening)
        } else if b == 0x25 {
            Some(EventFaultTypeGen2V2::SensorHardwareSabotage)
        } else if 0x26 <= b && b <= 0x2F {
            Some(EventFaultTypeGen2V2::RFU)
        } else if b == 0x30 {
            Some(EventFaultTypeGen2V2::ControlDeviceFaultNoFurtherDetails)
        } else if b == 0x31 {
            Some(EventFaultTypeGen2V2::VUInternalFault)
        } else if b == 0x32 {
            Some(EventFaultTypeGen2V2::PrinterFault)
        } else if b == 0x33 {
            Some(EventFaultTypeGen2V2::DisplayFault)
        } else if b == 0x34 {
            Some(EventFaultTypeGen2V2::DownloadingFault)
        } else if b == 0x35 {
            Some(EventFaultTypeGen2V2::SensorFault)
        } else if b == 0x36 {
            Some(EventFaultTypeGen2V2::InternalGNSSReceiver)
        } else if b == 0x37 {
            Some(EventFaultTypeGen2V2::ExternalGNSSFacility)
        } else if b == 0x38 {
            Some(EventFaultTypeGen2V2::RemoteCommunicationFacility)
        } else if b == 0x39 {
            Some(EventFaultTypeGen2V2::ITSInterface)
        } else if b == 0x3A {
            Some(EventFaultTypeGen2V2::InternalSensorFault)
        } else if 0x3B <= b && b <= 0x3F {
            Some(EventFaultTypeGen2V2::RFU)
        } else if b == 0x40 {
            Some(EventFaultTypeGen2V2::CardFaultNoFurtherDetails)
        } else if 0x41 <= b && b <= 0x4F {
            Some(EventFaultTypeGen2V2::RFU)
        } else if 0x50 <= b && b <= 0x7F {
            Some(EventFaultTypeGen2V2::RFU)
        } else {
            Some(EventFaultTypeGen2V2::ManufacturerSpecific)
        }
    }
}

impl EventFaultTypeGen2V2 {
    /// Reads a `EventFaultTypeGen2V2` at the reader's position.
    pub fn parse(cursor: &mut Cursor) -> (res: Result<EventFaultTypeGen2V2, ParseError>)
        ensures
            final(cursor).data() == old(cursor).data(),
            old(cursor).pos() <= final(cursor).pos(),
            final(cursor).pos() == EventFaultTypeGen2V2::parse_end(old(cursor).data(), old(cursor).pos()),
            res is Ok <==> EventFaultTypeGen2V2::parse_ok(old(cursor).data(), old(cursor).pos()),
            res matches Ok(v) ==> EventFaultTypeGen2V2::parsed_as(old(cursor).data(), old(cursor).pos(), v),
            res matches Err(e) ==> e == EventFaultTypeGen2V2::parse_err(old(cursor).data(), old(cursor).pos()),
    {
        let b = cursor.read_u8()?;
        match EventFaultTypeGen2V2::decode(b) {
            Some(v) => Ok(v),
            None => Err(ParseError::InvalidValue),
        }
    }
}

impl Parse for EventFaultTypeGen2V2 {
    open spec fn parse_ok(d: Seq<u8>, p: int) -> bool {
        bytes_ok(d, p, 1) && EventFaultTypeGen2V2::from_byte(d[p]) is Some
    }

    open spec fn parse_end(d: Seq<u8>, p: int) -> int {
        bytes_end(d, p, 1)
    }

    open spec fn parse_err(d: Seq<u8>, p: int) -> ParseError {
        if !bytes_ok(d, p, 1) {
            ParseError::UnexpectedEnd
        } else {
            ParseError::InvalidValue
        }
    }

    open spec fn parsed_as(d: Seq<u8>, p: int, v: EventFaultTypeGen2V2) -> bool {
        EventFaultTypeGen2V2::from_byte(d[p]) == Some(v)
    }

    fn parse(cursor: &mut Cursor) -> (res: Result<EventFaultTypeGen2V2, ParseError>) {
        EventFaultTypeGen2V2::parse(cursor)
    }
}

/// VuPowerSupplyInterruptionRecord (appendix 2.240) as version 2 defines it.
#[derive(Debug)]
pub struct VuPowerSupplyInterruptionRecordGen2V2 {
    pub event_type: EventFaultTypeGen2V2,
    pub event_record_purpose: EventFaultRecordPurpose,
    pub event_begin_time: TimeReal,
    pub event_end_time: TimeReal,
    pub card_number_and_gen_driver_slot_begin: Option<FullCardNumberAndGenerationGen2>,
    pub card_number_and_gen_driver_slot_end: Option<FullCardNumberAndGenerationGen2>,
    pub card_number_and_gen_codriver_slot_begin: Option<FullCardNumberAndGenerationGen2>,
    pub card_number_and_gen_codriver_slot_end: Option<FullCardNumberAndGenerationGen2>,
    pub similar_events_number: SimilarEventsNumber,
}

impl VuPowerSupplyInterruptionRecordGen2V2 {
    /// Reads a `VuPowerSupplyInterruptionRecordGen2V2` at the reader's position.
    pub fn parse(cursor: &mut Cursor) -> (res: Result<VuPowerSupplyInterruptionRecordGen2V2, ParseError>)
        ensures
            final(cursor).data() == old(cursor).data(),
            old(cursor).pos() <= final(cursor).pos(),
            final(cursor).pos() == VuPowerSupplyInterruptionRecordGen2V2::parse_end(old(cursor).data(), old(cursor).pos()),
            res is Ok <==> VuPowerSupplyInterruptionRecordGen2V2::parse_ok(old(cursor).data(), old(cursor).pos()),
            res matches Ok(v) ==> VuPowerSupplyInterruptionRecordGen2V2::parsed_as(old(cursor).data(), old(cursor).pos(), v),
            res matches Err(e) ==> e == VuPowerSupplyInterruptionRecordGen2V2::parse_err(old(cursor).data(), old(cursor).pos()),
    {
        let event_type = EventFaultTypeGen2V2::parse(cursor)?;
        let event_record_purpose = EventFaultRecordPurpose::parse(cursor)?;
        let event_begin_time = TimeReal::parse(cursor)?;
        let event_end_time = TimeReal::parse(cursor)?;
        let card_number_and_gen_driver_slot_begin = parse_optional::<FullCardNumberAndGenerationGen2>(cursor);
        let card_number_and_gen_driver_slot_end = parse_optional::<FullCardNumberAndGenerationGen2>(cursor);
        let card_number_and_gen_codriver_slot_begin = parse_optional::<FullCardNumberAndGenerationGen2>(cursor);
        let card_number_and_gen_codriver_slot_end = parse_optional::<FullCardNumberAndGenerationGen2>(cursor);
        let similar_events_number = SimilarEventsNumber::parse(cursor)?;
        Ok(VuPowerSupplyInterruptionRecordGen2V2 { event_type, event_record_purpose, event_begin_time, event_end_time, card_number_and_gen_driver_slot_begin, card_number_and_gen_driver_slot_end, card_number_and_gen_codriver_slot_begin, card_number_and_gen_codriver_slot_end, similar_events_number })
    }
}

impl Parse for VuPowerSupplyInterruptionRecordGen2V2 {
    open spec fn parse_ok(d: Seq<u8>, p: int) -> bool {
        let p1 = EventFaultTypeGen2V2::parse_end(d, p);
        let p2 = EventFaultRecordPurpose::parse_end(d, p1);
        let p3 = TimeReal::parse_end(d, p2);
        let p4 = TimeReal::parse_end(d, p3);
        let p5 = FullCardNumberAndGenerationGen2::parse_end(d, p4);
        let p6 = FullCardNumberAndGenerationGen2::parse_end(d, p5);
        let p7 = FullCardNumberAndGenerationGen2::parse_end(d, p6);
        let p8 = FullCardNumberAndGenerationGen2::parse_end(d, p7);
        EventFaultTypeGen2V2::parse_ok(d, p)
            && EventFaultRecordPurpose::parse_ok(d, p1)
            && TimeReal::parse_ok(d, p2)
            && TimeReal::parse_ok(d, p3)
            && SimilarEventsNumber::parse_ok(d, p8)
    }

    open spec fn parse_end(d: Seq<u8>, p: int) -> int {
        let p1 = EventFaultTypeGen2V2::parse_end(d, p);
        let p2 = EventFaultRecordPurpose::parse_end(d, p1);
        let p3 = TimeReal::parse_end(d, p2);
        let p4 = TimeReal::parse_end(d, p3);
        let p5 = FullCardNumberAndGenerationGen2::parse_end(d, p4);
        let p6 = FullCardNumberAndGenerationGen2::parse_end(d, p5);
        let p7 = FullCardNumberAndGenerationGen2::parse_end(d, p6);
        let p8 = FullCardNumberAndGenerationGen2::parse_end(d, p7);
        let p9 = SimilarEventsNumber::parse_end(d, p8);
        if !EventFaultTypeGen2V2::parse_ok(d, p) {
            p1
        } else if !EventFaultRecordPurpose::parse_ok(d, p1) {
            p2
        } else if !TimeReal::parse_ok(d, p2) {
            p3
        } else if !TimeReal::parse_ok(d, p3) {
            p4
        } else if !SimilarEventsNumber::parse_ok(d, p8) {
            p9
        } else {
            p9
        }
    }

    open spec fn parsed_as(d: Seq<u8>, p: int, v: VuPowerSupplyInterruptionRecordGen2V2) -> bool {
        let p1 = EventFaultTypeGen2V2::parse_end(d, p);
        let p2 = EventFaultRecordPurpose::parse_end(d, p1);
        let p3 = TimeReal::parse_end(d, p2);
        let p4 = TimeReal::parse_end(d, p3);
        let p5 = FullCardNumberAndGenerationGen2::parse_end(d, p4);
        let p6 = FullCardNumberAndGenerationGen2::parse_end(d, p5);
        let p7 = FullCardNumberAndGenerationGen2::parse_end(d, p6);
        let p8 = FullCardNumberAndGenerationGen2::parse_end(d, p7);
        EventFaultTypeGen2V2::parsed_as(d, p, v.event_type)
            && EventFaultRecordPurpose::parsed_as(d, p1, v.event_record_purpose)
            && TimeReal::parsed_as(d, p2, v.event_begin_time)
            && TimeReal::parsed_as(d, p3, v.event_end_time)
            && optional_as::<FullCardNumberAndGenerationGen2>(d, p4, v.card_number_and_gen_driver_slot_begin)
            && optional_as::<FullCardNumberAndGenerationGen2>(d, p5, v.card_number_and_gen_driver_slot_end)
            && optional_as::<FullCardNumberAndGenerationGen2>(d, p6, v.card_number_and_gen_codriver_slot_begin)
            && optional_as::<FullCardNumberAndGenerationGen2>(d, p7, v.card_number_and_gen_codriver_slot_end)
            && SimilarEventsNumber::parsed_as(d, p8, v.similar_events_number)
    }

    open spec fn parse_err(d: Seq<u8>, p: int) -> ParseError {
        let p1 = EventFaultTypeGen2V2::parse_end(d, p);
        let p2 = EventFaultRecordPurpose::parse_end(d, p1);
        let p3 = TimeReal::parse_end(d, p2);
        let p4 = TimeReal::parse_end(d, p3);
        let p5 = FullCardNumberAndGenerationGen2::parse_end(d, p4);
        let p6 = FullCardNumberAndGenerationGen2::parse_end(d, p5);
        let p7 = FullCardNumberAndGenerationGen2::parse_end(d, p6);
        let p8 = FullCardNumberAndGenerationGen2::parse_end(d, p7);
        if !EventFaultTypeGen2V2::parse_ok(d, p) {
            EventFaultTypeGen2V2::parse_err(d, p)
        } else if !EventFaultRecordPurpose::parse_ok(d, p1) {
            EventFaultRecordPurpose::parse_err(d, p1)
        } else if !TimeReal::parse_ok(d, p2) {
            TimeReal::parse_err(d, p2)
        } else if !TimeReal::parse_ok(d, p3) {
            TimeReal::parse_err(d, p3)
        } else if !SimilarEventsNumber::parse_ok(d, p8) {
            SimilarEventsNumber::parse_err(d, p8)
        } else {
            ParseError::InvalidValue
        }
    }

    fn parse(cursor: &mut Cursor) -> (res: Result<VuPowerSupplyInterruptionRecordGen2V2, ParseError>) {
        VuPowerSupplyInterruptionRecordGen2V2::parse(cursor)
    }
}

/// The first four record arrays of a version 2 overview block: the certificates and the vehicle.
#[derive(Debug)]
pub struct VuOverviewBlock {
    pub member_state_certificate_record_array: Vec<CertificateGen2>,
    pub vu_certificate_record_array: Vec<CertificateGen2>,
    pub vehicle_identification_number_record_array: Vec<VehicleIdentificationNumber>,
    pub vehicle_registration_number_record_array: Vec<VehicleRegistrationNumber>,
}

impl VuOverviewBlock {
    /// Reads a `VuOverviewBlock` at the reader's position.
    pub fn parse(cursor: &mut Cursor) -> (res: Result<VuOverviewBlock, ParseError>)
        ensures
            final(cursor).data() == old(cursor).data(),
            old(cursor).pos() <= final(cursor).pos(),
            final(cursor).pos() == VuOverviewBlock::parse_end(old(cursor).data(), old(cursor).pos()),
            res is Ok <==> VuOverviewBlock::parse_ok(old(cursor).data(), old(cursor).pos()),
            res matches Ok(v) ==> VuOverviewBlock::parsed_as(old(cursor).data(), old(cursor).pos(), v),
            res matches Err(e) ==> e == VuOverviewBlock::parse_err(old(cursor).data(), old(cursor).pos()),
    {
        let member_state_certificate_record_array = RecordArray::<CertificateGen2>::parse_dyn_size(cursor)?.into_inner();
        let vu_certificate_record_array = RecordArray::<CertificateGen2>::parse_dyn_size(cursor)?.into_inner();
        let vehicle_identification_number_record_array = RecordArray::<VehicleIdentificationNumber>::parse(cursor)?.into_inner();
        let vehicle_registration_number_record_array = RecordArray::<VehicleRegistrationNumber>::parse(cursor)?.into_inner();
        Ok(VuOverviewBlock { member_state_certificate_record_array, vu_certificate_record_array, vehicle_identification_number_record_array, vehicle_registration_number_record_array })
    }
}

impl Parse for VuOverviewBlock {
    open spec fn parse_ok(d: Seq<u8>, p: int) -> bool {
        let p1 = array_end(d, p);
        let p2 = array_end(d, p1);
        let p3 = array_end(d, p2);
        dyn_array_ok::<CertificateGen2>(d, p)
            && dyn_array_ok::<CertificateGen2>(d, p1)
            && array_ok::<VehicleIdentificationNumber>(d, p2)
            && array_ok::<VehicleRegistrationNumber>(d, p3)
    }

    open spec fn parse_end(d: Seq<u8>, p: int) -> int {
        let p1 = array_end(d, p);
        let p2 = array_end(d, p1);
        let p3 = array_end(d, p2);
        let p4 = array_end(d, p3);
        if !dyn_array_ok::<CertificateGen2>(d, p) {
            p1
        } else if !dyn_array_ok::<CertificateGen2>(d, p1) {
            p2
        } else if !array_ok::<VehicleIdentificationNumber>(d, p2) {
            p3
        } else if !array_ok::<VehicleRegistrationNumber>(d, p3) {
            p4
        } else {
            p4
        }
    }

    open spec fn parsed_as(d: Seq<u8>, p: int, v: VuOverviewBlock) -> bool {
        let p1 = array_end(d, p);
        let p2 = array_end(d, p1);
        let p3 = array_end(d, p2);
        dyn_array_as::<CertificateGen2>(d, p, v.member_state_certificate_record_array@)
            && dyn_array_as::<CertificateGen2>(d, p1, v.vu_certificate_record_array@)
            && array_as::<VehicleIdentificationNumber>(d, p2, v.vehicle_identification_number_record_array@)
            && array_as::<VehicleRegistrationNumber>(d, p3, v.vehicle_registration_number_record_array@)
    }

    open spec fn parse_err(d: Seq<u8>, p: int) -> ParseError {
        let p1 = array_end(d, p);
        let p2 = array_end(d, p1);
        let p3 = array_end(d, p2);
        if !dyn_array_ok::<CertificateGen2>(d, p) {
            dyn_array_err::<CertificateGen2>(d, p)
        } else if !dyn_array_ok::<CertificateGen2>(d, p1) {
            dyn_array_err::<CertificateGen2>(d, p1)
        } else if !array_ok::<VehicleIdentificationNumber>(d, p2) {
            array_err::<VehicleIdentificationNumber>(d, p2)
        } else if !array_ok::<VehicleRegistrationNumber>(d, p3) {
            array_err::<VehicleRegistrationNumber>(d, p3)
        } else {
            ParseError::InvalidValue
        }
    }

    fn parse(cursor: &mut Cursor) -> (res: Result<VuOverviewBlock, ParseError>) {
        VuOverviewBlock::parse(cursor)
    }
}

} // verus!
