//! Generation 2 data types (Annex IC), and the record arrays in which
//! generation 2 vehicle units download their data.
use crate::bytes::extract_u8_bits_into_tup;
use crate::cursor::{
    be16, be24, bytes_end, bytes_ok, optional_as, parse_optional, Cursor, Parse, ParseDyn,
    ParseError,
};
use crate::dt::external::{ManufacturerCode, NationNumeric};
use crate::dt::gen1::RegionNumeric;
use crate::dt::{
    ActivityChangeInfo, Address, CardApprovalNumber, CardNumber, CardSlotNumber, CardSlotsStatus,
    CardStructureVersion, CurrentDateTime, EmbedderIcAssemblerId, EventFaultRecordPurpose,
    HolderName, IA5String, KConstantOfRecordingEquipment, LTyreCircumference, ManualInputFlag,
    MonthYear, Name, OdometerShort, OdometerValueMidnight, OverspeedNumber, SensorPairingDate,
    SimilarEventsNumber, Speed, SpeedAuthorised, SpeedAverage, SpeedMax, TimeReal, TyreSize,
    VehicleIdentificationNumber, VehicleRegistrationIdentification, VehicleRegistrationNumber,
    VuDataBlockCounter, VuDetailedSpeedBlock, VuDownloadablePeriod, VuManufacturerAddress,
    VuManufacturerName, VuManufacturingDate, VuPartNumber, VuSoftwareIdentification,
    VuSoftwareVersion, WVehicleCharacteristicConstant,
};
use crate::repeat::{
    attempt_pos, attempt_positions, counted_end, counted_err, group_start, groups_as, kept_positions,
    leading_successes, nonempty_groups, parse_counted, parse_grouped, parse_kept, parse_until_failure,
    values_at,
};
use crate::sort::{sort_by_time, sorted_values_at, Timed};
use vstd::prelude::*;
use vstd::slice::slice_subrange;

verus! {

/// RecordType (appendix 2.120): what the records of a record array are; zero is not a record type.
#[derive(Debug, Clone, Copy, PartialEq, Eq, Structural)]
pub enum RecordTypeGen2 {
    ActivityChangeInfo,
    CardSlotsStatus,
    CurrentDateTime,
    MemberStateCertificate,
    OdometerValueMidnight,
    DateOfDayDownloaded,
    SensorPaired,
    Signature,
    SpecificConditionRecord,
    VehicleIdentificationNumber,
    VehicleRegistrationNumber,
    VuCalibrationRecord,
    VuCardIWRecord,
    VuCardRecord,
    VuCertificate,
    VuCompanyLocksRecord,
    VuControlActivityRecord,
    VuDetailedSpeedBlock,
    VuDownloadablePeriod,
    VuDownloadActivityData,
    VuEventRecord,
    VuGNSSADRecord,
    VuITSConsentRecord,
    VuFaultRecord,
    VuIdentification,
    VuOverSpeedingControlData,
    VuOverSpeedingEventRecord,
    VuPlaceDailyWorkPeriodRecord,
    VuTimeAdjustmentGNSSRecord,
    VuTimeAdjustmentRecord,
    VuPowerSupplyInterruptionRecord,
    SensorPairedRecord,
    SensorExternalGNSSCoupledRecord,
    RFU,
    ManufacturerSpecific,
}

impl RecordTypeGen2 {
    /// The value that the byte `b` encodes, if any.
    pub open spec fn from_byte(b: u8) -> Option<RecordTypeGen2> {
        if b == 0x00 {
            None
        } else if b == 0x01 {
            Some(RecordTypeGen2::ActivityChangeInfo)
        } else if b == 0x02 {
            Some(RecordTypeGen2::CardSlotsStatus)
        } else if b == 0x03 {
            Some(RecordTypeGen2::CurrentDateTime)
        } else if b == 0x04 {
            Some(RecordTypeGen2::MemberStateCertificate)
        } else if b == 0x05 {
            Some(RecordTypeGen2::OdometerValueMidnight)
        } else if b == 0x06 {
            Some(RecordTypeGen2::DateOfDayDownloaded)
        } else if b == 0x07 {
            Some(RecordTypeGen2::SensorPaired)
        } else if b == 0x08 {
            Some(RecordTypeGen2::Signature)
        } else if b == 0x09 {
            Some(RecordTypeGen2::SpecificConditionRecord)
        } else if b == 0x0A {
            Some(RecordTypeGen2::VehicleIdentificationNumber)
        } else if b == 0x0B {
            Some(RecordTypeGen2::VehicleRegistrationNumber)
        } else if b == 0x0C {
            Some(RecordTypeGen2::VuCalibrationRecord)
        } else if b == 0x0D {
            Some(RecordTypeGen2::VuCardIWRecord)
        } else if b == 0x0E {
            Some(RecordTypeGen2::VuCardRecord)
        } else if b == 0x0F {
            Some(RecordTypeGen2::VuCertificate)
        } else if b == 0x10 {
            Some(RecordTypeGen2::VuCompanyLocksRecord)
        } else if b == 0x11 {
            Some(RecordTypeGen2::VuControlActivityRecord)
        } else if b == 0x12 {
            Some(RecordTypeGen2::VuDetailedSpeedBlock)
        } else if b == 0x13 {
            Some(RecordTypeGen2::VuDownloadablePeriod)
        } else if b == 0x14 {
            Some(RecordTypeGen2::VuDownloadActivityData)
        } else if b == 0x15 {
            Some(RecordTypeGen2::VuEventRecord)
        } else if b == 0x16 {
            Some(RecordTypeGen2::VuGNSSADRecord)
        } else if b == 0x17 {
            Some(RecordTypeGen2::VuITSConsentRecord)
        } else if b == 0x18 {
            Some(RecordTypeGen2::VuFaultRecord)
        } else if b == 0x19 {
            Some(RecordTypeGen2::VuIdentification)
        } else if b == 0x1A {
            Some(RecordTypeGen2::VuOverSpeedingControlData)
        } else if b == 0x1B {
            Some(RecordTypeGen2::VuOverSpeedingEventRecord)
        } else if b == 0x1C {
            Some(RecordTypeGen2::VuPlaceDailyWorkPeriodRecord)
        } else if b == 0x1D {
            Some(RecordTypeGen2::VuTimeAdjustmentGNSSRecord)
        } else if b == 0x1E {
            Some(RecordTypeGen2::VuTimeAdjustmentRecord)
        } else if b == 0x1F {
            Some(RecordTypeGen2::VuPowerSupplyInterruptionRecord)
        } else if b == 0x20 {
            Some(RecordTypeGen2::SensorPairedRecord)
        } else if b == 0x21 {
            Some(RecordTypeGen2::SensorExternalGNSSCoupledRecord)
        } else if 0x22 <= b && b <= 0x7F {
            Some(RecordTypeGen2::RFU)
        } else {
            Some(RecordTypeGen2::ManufacturerSpecific)
        }
    }

    /// Decodes one byte.
    pub fn decode(b: u8) -> (r: Option<RecordTypeGen2>)
        ensures
            r == RecordTypeGen2::from_byte(b),
    {
        if b == 0x00 {
            None
        } else if b == 0x01 {
            Some(RecordTypeGen2::ActivityChangeInfo)
        } else if b == 0x02 {
            Some(RecordTypeGen2::CardSlotsStatus)
        } else if b == 0x03 {
            Some(RecordTypeGen2::CurrentDateTime)
        } else if b == 0x04 {
            Some(RecordTypeGen2::MemberStateCertificate)
        } else if b == 0x05 {
            Some(RecordTypeGen2::OdometerValueMidnight)
        } else if b == 0x06 {
            Some(RecordTypeGen2::DateOfDayDownloaded)
        } else if b == 0x07 {
            Some(RecordTypeGen2::SensorPaired)
        } else if b == 0x08 {
            Some(RecordTypeGen2::Signature)
        } else if b == 0x09 {
            Some(RecordTypeGen2::SpecificConditionRecord)
        } else if b == 0x0A {
            Some(RecordTypeGen2::VehicleIdentificationNumber)
        } else if b == 0x0B {
            Some(RecordTypeGen2::VehicleRegistrationNumber)
        } else if b == 0x0C {
            Some(RecordTypeGen2::VuCalibrationRecord)
        } else if b == 0x0D {
            Some(RecordTypeGen2::VuCardIWRecord)
        } else if b == 0x0E {
            Some(RecordTypeGen2::VuCardRecord)
        } else if b == 0x0F {
            Some(RecordTypeGen2::VuCertificate)
        } else if b == 0x10 {
            Some(RecordTypeGen2::VuCompanyLocksRecord)
        } else if b == 0x11 {
            Some(RecordTypeGen2::VuControlActivityRecord)
        } else if b == 0x12 {
            Some(RecordTypeGen2::VuDetailedSpeedBlock)
        } else if b == 0x13 {
            Some(RecordTypeGen2::VuDownloadablePeriod)
        } else if b == 0x14 {
            Some(RecordTypeGen2::VuDownloadActivityData)
        } else if b == 0x15 {
            Some(RecordTypeGen2::VuEventRecord)
        } else if b == 0x16 {
            Some(RecordTypeGen2::VuGNSSADRecord)
        } else if b == 0x17 {
            Some(RecordTypeGen2::VuITSConsentRecord)
        } else if b == 0x18 {
            Some(RecordTypeGen2::VuFaultRecord)
        } else if b == 0x19 {
            Some(RecordTypeGen2::VuIdentification)
        } else if b == 0x1A {
            Some(RecordTypeGen2::VuOverSpeedingControlData)
        } else if b == 0x1B {
            Some(RecordTypeGen2::VuOverSpeedingEventRecord)
        } else if b == 0x1C {
            Some(RecordTypeGen2::VuPlaceDailyWorkPeriodRecord)
        } else if b == 0x1D {
            Some(RecordTypeGen2::VuTimeAdjustmentGNSSRecord)
        } else if b == 0x1E {
            Some(RecordTypeGen2::VuTimeAdjustmentRecord)
        } else if b == 0x1F {
            Some(RecordTypeGen2::VuPowerSupplyInterruptionRecord)
        } else if b == 0x20 {
            Some(RecordTypeGen2::SensorPairedRecord)
        } else if b == 0x21 {
            Some(RecordTypeGen2::SensorExternalGNSSCoupledRecord)
        } else if 0x22 <= b && b <= 0x7F {
            Some(RecordTypeGen2::RFU)
        } else {
            Some(RecordTypeGen2::ManufacturerSpecific)
        }
    }
}

impl RecordTypeGen2 {
    /// Reads a `RecordTypeGen2` at the reader's position.
    pub fn parse(cursor: &mut Cursor) -> (res: Result<RecordTypeGen2, ParseError>)
        ensures
            final(cursor).data() == old(cursor).data(),
            old(cursor).pos() <= final(cursor).pos(),
            final(cursor).pos() == RecordTypeGen2::parse_end(old(cursor).data(), old(cursor).pos()),
            res is Ok <==> RecordTypeGen2::parse_ok(old(cursor).data(), old(cursor).pos()),
            res matches Ok(v) ==> RecordTypeGen2::parsed_as(old(cursor).data(), old(cursor).pos(), v),
            res matches Err(e) ==> e == RecordTypeGen2::parse_err(old(cursor).data(), old(cursor).pos()),
    {
        let b = cursor.read_u8()?;
        match RecordTypeGen2::decode(b) {
            Some(v) => Ok(v),
            None => Err(ParseError::InvalidValue),
        }
    }
}

impl Parse for RecordTypeGen2 {
    open spec fn parse_ok(d: Seq<u8>, p: int) -> bool {
        bytes_ok(d, p, 1) && RecordTypeGen2::from_byte(d[p]) is Some
    }

    open spec fn parse_end(d: Seq<u8>, p: int) -> int {
        bytes_end(d, p, 1)
    }

    open spec fn parse_err(d: Seq<u8>, p: int) -> ParseError {
        if !bytes_ok(d, p, 1) {
            ParseError::UnexpectedEnd
        } else {
            ParseError::InvalidValue
        }
    }

    open spec fn parsed_as(d: Seq<u8>, p: int, v: RecordTypeGen2) -> bool {
        RecordTypeGen2::from_byte(d[p]) == Some(v)
    }

    fn parse(cursor: &mut Cursor) -> (res: Result<RecordTypeGen2, ParseError>) {
        RecordTypeGen2::parse(cursor)
    }
}

/// The type byte of a record array is there and is not zero, and so are its
/// record size and record count.
pub open spec fn array_header_ok(d: Seq<u8>, p: int) -> bool {
    bytes_ok(d, p, 5) && d[p] != 0
}

/// The size of each record of the array at `p`.
pub open spec fn array_record_size(d: Seq<u8>, p: int) -> int {
    be16(d, p + 1)
}

/// The number of records of the array at `p`.
pub open spec fn array_count(d: Seq<u8>, p: int) -> int {
    be16(d, p + 3)
}

/// The bytes of record `i` of the array at `p`.
pub open spec fn array_chunk(d: Seq<u8>, p: int, i: int) -> Seq<u8> {
    let sz = array_record_size(d, p);
    d.subrange(p + 5 + i * sz, p + 5 + i * sz + sz)
}

/// Where the reader stands after the array at `p`, whether or not it was read:
/// after the whole array once its header was read.
pub open spec fn array_end(d: Seq<u8>, p: int) -> int {
    if !bytes_ok(d, p, 1) {
        d.len() as int
    } else if d[p] == 0 {
        p + 1
    } else if !bytes_ok(d, p, 5) {
        d.len() as int
    } else {
        bytes_end(d, p + 5, array_record_size(d, p) * array_count(d, p))
    }
}

/// The array at `p` is complete, its records have a non-zero size, and each
/// record reads as a `T` from its own bytes.
pub open spec fn array_ok<T: Parse>(d: Seq<u8>, p: int) -> bool {
    &&& array_header_ok(d, p)
    &&& array_record_size(d, p) > 0
    &&& bytes_ok(d, p + 5, array_record_size(d, p) * array_count(d, p))
    &&& forall|i: int|
        0 <= i < array_count(d, p) ==> #[trigger] T::parse_ok(array_chunk(d, p, i), 0)
}

/// `v` holds the records of the array at `p`, each read from its own bytes.
pub open spec fn array_as<T: Parse>(d: Seq<u8>, p: int, v: Seq<T>) -> bool {
    &&& v.len() == array_count(d, p)
    &&& forall|i: int|
        0 <= i < v.len() ==> #[trigger] T::parsed_as(array_chunk(d, p, i), 0, v[i])
}

/// Like `array_ok`, for records whose length is the record size of the array.
pub open spec fn dyn_array_ok<T: ParseDyn>(d: Seq<u8>, p: int) -> bool {
    &&& array_header_ok(d, p)
    &&& array_record_size(d, p) > 0
    &&& bytes_ok(d, p + 5, array_record_size(d, p) * array_count(d, p))
    &&& forall|i: int|
        0 <= i < array_count(d, p) ==> #[trigger] T::dyn_ok(
            array_chunk(d, p, i),
            0,
            array_record_size(d, p),
        )
}

/// Like `array_as`, for records whose length is the record size of the array.
pub open spec fn dyn_array_as<T: ParseDyn>(d: Seq<u8>, p: int, v: Seq<T>) -> bool {
    &&& v.len() == array_count(d, p)
    &&& forall|i: int|
        0 <= i < v.len() ==> #[trigger] T::dyn_as(
            array_chunk(d, p, i),
            0,
            array_record_size(d, p),
            v[i],
        )
}

/// The error of the first record, from record `i` on, that does not read as a `T`.
pub open spec fn array_err_from<T: Parse>(d: Seq<u8>, p: int, i: int) -> ParseError
    decreases array_count(d, p) - i,
{
    if 0 <= i < array_count(d, p) {
        if !T::parse_ok(array_chunk(d, p, i), 0) {
            T::parse_err(array_chunk(d, p, i), 0)
        } else {
            array_err_from::<T>(d, p, i + 1)
        }
    } else {
        ParseError::InvalidValue
    }
}

/// Like `array_err_from`, for records whose length is the record size of the array.
pub open spec fn dyn_array_err_from<T: ParseDyn>(d: Seq<u8>, p: int, i: int) -> ParseError
    decreases array_count(d, p) - i,
{
    if 0 <= i < array_count(d, p) {
        if !T::dyn_ok(array_chunk(d, p, i), 0, array_record_size(d, p)) {
            T::dyn_err(array_chunk(d, p, i), 0, array_record_size(d, p))
        } else {
            dyn_array_err_from::<T>(d, p, i + 1)
        }
    } else {
        ParseError::InvalidValue
    }
}

/// The error of a header that cannot be read: a type byte of zero is refused,
/// anything else is missing data.
pub open spec fn array_header_err(d: Seq<u8>, p: int) -> ParseError {
    if bytes_ok(d, p, 1) && d[p] == 0 {
        ParseError::InvalidValue
    } else {
        ParseError::UnexpectedEnd
    }
}

/// The error of a read of the array at `p` that fails: the header's, missing
/// record bytes, a record size of zero, or the first record that does not read.
pub open spec fn array_err<T: Parse>(d: Seq<u8>, p: int) -> ParseError {
    if !array_header_ok(d, p) {
        array_header_err(d, p)
    } else if !bytes_ok(d, p + 5, array_record_size(d, p) * array_count(d, p)) {
        ParseError::UnexpectedEnd
    } else if array_record_size(d, p) == 0 {
        ParseError::InvalidValue
    } else {
        array_err_from::<T>(d, p, 0)
    }
}

/// Like `array_err`, for records whose length is the record size of the array.
pub open spec fn dyn_array_err<T: ParseDyn>(d: Seq<u8>, p: int) -> ParseError {
    if !array_header_ok(d, p) {
        array_header_err(d, p)
    } else if !bytes_ok(d, p + 5, array_record_size(d, p) * array_count(d, p)) {
        ParseError::UnexpectedEnd
    } else if array_record_size(d, p) == 0 {
        ParseError::InvalidValue
    } else {
        dyn_array_err_from::<T>(d, p, 0)
    }
}

/// A record array of a generation 2 download: a type byte, the size of each
/// record, the number of records, and the records, each read from its own bytes.
#[derive(Debug)]
pub struct RecordArray<T> {
    pub record_type: RecordTypeGen2,
    pub record_size: u16,
    pub no_of_records: u16,
    pub records: Vec<T>,
}

proof fn lemma_chunk_in_array(sz: int, n: int, i: int)
    requires
        0 <= i < n,
        0 <= sz,
    ensures
        0 <= i * sz,
        i * sz + sz <= n * sz,
{
    assert(i * sz + sz <= n * sz) by (nonlinear_arith)
        requires
            0 <= i < n,
            0 <= sz,
    ;
    assert(0 <= i * sz) by (nonlinear_arith)
        requires
            0 <= i,
            0 <= sz,
    ;
}

impl<T> RecordArray<T> {
    /// The records.
    pub fn into_inner(self) -> (r: Vec<T>)
        ensures
            r@ == self.records@,
    {
        self.records
    }

    /// Reads the header of an array and splits off the bytes of its records.
    fn parse_header<'a>(cursor: &mut Cursor<'a>) -> (res: Result<(RecordTypeGen2, u16, u16, Cursor<'a>), ParseError>)
        ensures
            final(cursor).data() == old(cursor).data(),
            old(cursor).pos() <= final(cursor).pos(),
            final(cursor).pos() == array_end(old(cursor).data(), old(cursor).pos()),
            res is Ok <==> (array_header_ok(old(cursor).data(), old(cursor).pos()) && bytes_ok(
                old(cursor).data(),
                old(cursor).pos() + 5,
                array_record_size(old(cursor).data(), old(cursor).pos()) * array_count(
                    old(cursor).data(),
                    old(cursor).pos(),
                ),
            )),
            res matches Err(e) ==> e == if array_header_ok(old(cursor).data(), old(cursor).pos()) {
                ParseError::UnexpectedEnd
            } else {
                array_header_err(old(cursor).data(), old(cursor).pos())
            },
            res matches Ok((t, sz, n, c)) ==> {
                let d = old(cursor).data();
                let p = old(cursor).pos();
                &&& RecordTypeGen2::from_byte(d[p]) == Some(t)
                &&& sz == array_record_size(d, p)
                &&& n == array_count(d, p)
                &&& c.pos() == 0
                &&& c.data() == d.subrange(p + 5, p + 5 + sz * n)
            },
    {
        let record_type = RecordTypeGen2::parse(cursor)?;
        let record_size = cursor.read_u16_be()?;
        let no_of_records = cursor.read_u16_be()?;
        assert(record_size * no_of_records <= 65535 * 65535) by (nonlinear_arith)
            requires
                record_size <= 65535,
                no_of_records <= 65535,
        ;
        let data_size = record_size as usize * no_of_records as usize;
        let data = cursor.take_exact(data_size)?;
        Ok((record_type, record_size, no_of_records, data))
    }
}

impl<T: Parse> Parse for RecordArray<T> {
    open spec fn parse_ok(d: Seq<u8>, p: int) -> bool {
        array_ok::<T>(d, p)
    }

    open spec fn parse_end(d: Seq<u8>, p: int) -> int {
        array_end(d, p)
    }

    open spec fn parse_err(d: Seq<u8>, p: int) -> ParseError {
        array_err::<T>(d, p)
    }

    open spec fn parsed_as(d: Seq<u8>, p: int, v: RecordArray<T>) -> bool {
        &&& RecordTypeGen2::from_byte(d[p]) == Some(v.record_type)
        &&& v.record_size == array_record_size(d, p)
        &&& v.no_of_records == array_count(d, p)
        &&& array_as::<T>(d, p, v.records@)
    }

    fn parse(cursor: &mut Cursor) -> (res: Result<RecordArray<T>, ParseError>) {
        let ghost d = old(cursor).data();
        let ghost p = old(cursor).pos();
        let (record_type, record_size, no_of_records, mut data) = RecordArray::<T>::parse_header(
            cursor,
        )?;
        if record_size == 0 {
            return Err(ParseError::InvalidValue);
        }
        let ghost sz = record_size as int;
        let ghost n = no_of_records as int;
        let mut records: Vec<T> = Vec::new();
        let mut i: u16 = 0;
        while i < no_of_records
            invariant
                0 <= i <= no_of_records,
                sz == record_size,
                n == no_of_records,
                sz > 0,
                cursor.data() == d,
                d == old(cursor).data(),
                p == old(cursor).pos(),
                cursor.pos() == array_end(d, p),
                array_header_ok(d, p),
                sz == array_record_size(d, p),
                n == array_count(d, p),
                bytes_ok(d, p + 5, sz * n),
                data.data() == d.subrange(p + 5, p + 5 + sz * n),
                data.pos() == i * sz,
                records@.len() == i,
                forall|j: int| 0 <= j < i ==> #[trigger] T::parse_ok(array_chunk(d, p, j), 0),
                array_err::<T>(d, p) == array_err_from::<T>(d, p, i as int),
                forall|j: int|
                    0 <= j < i ==> #[trigger] T::parsed_as(array_chunk(d, p, j), 0, records@[j]),
            decreases no_of_records - i,
        {
            proof {
                lemma_chunk_in_array(sz, n, i as int);
            }
            let mut chunk = data.take_exact(record_size as usize)?;
            proof {
                assert(chunk.data() =~= array_chunk(d, p, i as int));
            }
            let ghost before = records@;
            let record = T::parse(&mut chunk)?;
            records.push(record);
            proof {
                assert forall|j: int| 0 <= j < i + 1 implies #[trigger] T::parsed_as(
                    array_chunk(d, p, j),
                    0,
                    records@[j],
                ) by {
                    if j < i {
                        assert(records@[j] == before[j]);
                    }
                }
                assert((i + 1) * sz == i * sz + sz) by (nonlinear_arith);
            }
            i = i + 1;
        }
        Ok(RecordArray { record_type, record_size, no_of_records, records })
    }
}

impl<T: ParseDyn> RecordArray<T> {
    /// Reads an array whose records take their length from the array's record size.
    pub fn parse_dyn_size(cursor: &mut Cursor) -> (res: Result<RecordArray<T>, ParseError>)
        ensures
            final(cursor).data() == old(cursor).data(),
            old(cursor).pos() <= final(cursor).pos(),
            final(cursor).pos() == array_end(old(cursor).data(), old(cursor).pos()),
            res is Ok <==> dyn_array_ok::<T>(old(cursor).data(), old(cursor).pos()),
            res matches Err(e) ==> e == dyn_array_err::<T>(old(cursor).data(), old(cursor).pos()),
            res matches Ok(v) ==> {
                let d = old(cursor).data();
                let p = old(cursor).pos();
                &&& RecordTypeGen2::from_byte(d[p]) == Some(v.record_type)
                &&& v.record_size == array_record_size(d, p)
                &&& v.no_of_records == array_count(d, p)
                &&& dyn_array_as::<T>(d, p, v.records@)
            },
    {
        let ghost d = old(cursor).data();
        let ghost p = old(cursor).pos();
        let (record_type, record_size, no_of_records, mut data) = RecordArray::<T>::parse_header(
            cursor,
        )?;
        if record_size == 0 {
            return Err(ParseError::InvalidValue);
        }
        let ghost sz = record_size as int;
        let ghost n = no_of_records as int;
        let mut records: Vec<T> = Vec::new();
        let mut i: u16 = 0;
        while i < no_of_records
            invariant
                0 <= i <= no_of_records,
                sz == record_size,
                n == no_of_records,
                sz > 0,
                cursor.data() == d,
                d == old(cursor).data(),
                p == old(cursor).pos(),
                cursor.pos() == array_end(d, p),
                array_header_ok(d, p),
                sz == array_record_size(d, p),
                n == array_count(d, p),
                bytes_ok(d, p + 5, sz * n),
                data.data() == d.subrange(p + 5, p + 5 + sz * n),
                data.pos() == i * sz,
                records@.len() == i,
                forall|j: int| 0 <= j < i ==> #[trigger] T::dyn_ok(array_chunk(d, p, j), 0, sz),
                dyn_array_err::<T>(d, p) == dyn_array_err_from::<T>(d, p, i as int),
                forall|j: int|
                    0 <= j < i ==> #[trigger] T::dyn_as(array_chunk(d, p, j), 0, sz, records@[j]),
            decreases no_of_records - i,
        {
            proof {
                lemma_chunk_in_array(sz, n, i as int);
            }
            let mut chunk = data.take_exact(record_size as usize)?;
            proof {
                assert(chunk.data() =~= array_chunk(d, p, i as int));
            }
            let ghost before = records@;
            let record = T::parse_dyn_size(&mut chunk, record_size as usize)?;
            records.push(record);
            proof {
                assert forall|j: int| 0 <= j < i + 1 implies #[trigger] T::dyn_as(
                    array_chunk(d, p, j),
                    0,
                    sz,
                    records@[j],
                ) by {
                    if j < i {
                        assert(records@[j] == before[j]);
                    }
                }
                assert((i + 1) * sz == i * sz + sz) by (nonlinear_arith);
            }
            i = i + 1;
        }
        Ok(RecordArray { record_type, record_size, no_of_records, records })
    }
}

/// Certificate (appendix 2.41) as generation 2 stores it: as many bytes as
/// its container gives.
#[derive(Debug)]
pub struct CertificateGen2 {
    pub value: Vec<u8>,
}

impl CertificateGen2 {
    /// Reads a `CertificateGen2` of `size` bytes at the reader's position.
    pub fn parse_dyn_size(cursor: &mut Cursor, size: usize) -> (res: Result<CertificateGen2, ParseError>)
        ensures
            final(cursor).data() == old(cursor).data(),
            old(cursor).pos() <= final(cursor).pos(),
            final(cursor).pos() == CertificateGen2::dyn_end(old(cursor).data(), old(cursor).pos(), size as int),
            res is Ok <==> CertificateGen2::dyn_ok(old(cursor).data(), old(cursor).pos(), size as int),
            res matches Ok(v) ==> CertificateGen2::dyn_as(old(cursor).data(), old(cursor).pos(), size as int, v),
            res matches Err(e) ==> e == CertificateGen2::dyn_err(old(cursor).data(), old(cursor).pos(), size as int),
    {
        let value = cursor.read_bytes(size)?;
        Ok(CertificateGen2 { value })
    }
}

impl ParseDyn for CertificateGen2 {
    open spec fn dyn_ok(d: Seq<u8>, p: int, size: int) -> bool {
        bytes_ok(d, p, size)
    }

    open spec fn dyn_end(d: Seq<u8>, p: int, size: int) -> int {
        bytes_end(d, p, size)
    }

    open spec fn dyn_err(d: Seq<u8>, p: int, size: int) -> ParseError {
        ParseError::UnexpectedEnd
    }

    open spec fn dyn_as(d: Seq<u8>, p: int, size: int, v: CertificateGen2) -> bool {
        v.value@ == d.subrange(p, p + size)
    }

    fn parse_dyn_size(cursor: &mut Cursor, size: usize) -> (res: Result<CertificateGen2, ParseError>) {
        CertificateGen2::parse_dyn_size(cursor, size)
    }
}

/// MemberStateCertificate (appendix 2.96).
pub type MemberStateCertificate = CertificateGen2;

/// VuCertificate (appendix 2.181).
pub type VuCertificate = CertificateGen2;

/// Signature (appendix 2.149) as generation 2 stores it: an octet string of
/// 64 to 132 bytes, as long as its container gives.
#[derive(Debug)]
pub struct SignatureGen2 {
    pub value: Vec<u8>,
}

impl SignatureGen2 {
    /// The lengths that a generation 2 signature may have.
    pub open spec fn size_ok(size: int) -> bool {
        64 <= size <= 132
    }
}

impl SignatureGen2 {
    /// Reads a `SignatureGen2` of `size` bytes at the reader's position.
    pub fn parse_dyn_size(cursor: &mut Cursor, size: usize) -> (res: Result<SignatureGen2, ParseError>)
        ensures
            final(cursor).data() == old(cursor).data(),
            old(cursor).pos() <= final(cursor).pos(),
            final(cursor).pos() == SignatureGen2::dyn_end(old(cursor).data(), old(cursor).pos(), size as int),
            res is Ok <==> SignatureGen2::dyn_ok(old(cursor).data(), old(cursor).pos(), size as int),
            res matches Ok(v) ==> SignatureGen2::dyn_as(old(cursor).data(), old(cursor).pos(), size as int, v),
            res matches Err(e) ==> e == SignatureGen2::dyn_err(old(cursor).data(), old(cursor).pos(), size as int),
    {
        if size < 64 || size > 132 {
            return Err(ParseError::InvalidValue);
        }
        let value = cursor.read_bytes(size)?;
        Ok(SignatureGen2 { value })
    }
}

impl ParseDyn for SignatureGen2 {
    open spec fn dyn_ok(d: Seq<u8>, p: int, size: int) -> bool {
        SignatureGen2::size_ok(size) && bytes_ok(d, p, size)
    }

    open spec fn dyn_end(d: Seq<u8>, p: int, size: int) -> int {
        if SignatureGen2::size_ok(size) {
            bytes_end(d, p, size)
        } else {
            p
        }
    }

    open spec fn dyn_err(d: Seq<u8>, p: int, size: int) -> ParseError {
        if !SignatureGen2::size_ok(size) {
            ParseError::InvalidValue
        } else {
            ParseError::UnexpectedEnd
        }
    }

    open spec fn dyn_as(d: Seq<u8>, p: int, size: int, v: SignatureGen2) -> bool {
        v.value@ == d.subrange(p, p + size)
    }

    fn parse_dyn_size(cursor: &mut Cursor, size: usize) -> (res: Result<SignatureGen2, ParseError>) {
        SignatureGen2::parse_dyn_size(cursor, size)
    }
}

/// ControlType (appendix 2.53) as generation 2 defines it: the five high bits `cvpdr`.
#[derive(Debug)]
pub struct ControlTypeGen2 {
    pub card_downloading: bool,
    pub vu_downloading: bool,
    pub printing: bool,
    pub display: bool,
    pub roadside_calibration_checking: bool,
}

impl ControlTypeGen2 {
    /// Reads a `ControlTypeGen2` at the reader's position.
    pub fn parse(cursor: &mut Cursor) -> (res: Result<ControlTypeGen2, ParseError>)
        ensures
            final(cursor).data() == old(cursor).data(),
            old(cursor).pos() <= final(cursor).pos(),
            final(cursor).pos() == ControlTypeGen2::parse_end(old(cursor).data(), old(cursor).pos()),
            res is Ok <==> ControlTypeGen2::parse_ok(old(cursor).data(), old(cursor).pos()),
            res matches Ok(v) ==> ControlTypeGen2::parsed_as(old(cursor).data(), old(cursor).pos(), v),
            res matches Err(e) ==> e == ControlTypeGen2::parse_err(old(cursor).data(), old(cursor).pos()),
    {
        let control_type_byte = cursor.read_u8()?;
        let bits = extract_u8_bits_into_tup(control_type_byte);
        Ok(
            ControlTypeGen2 {
                card_downloading: bits.0 == 1,
                vu_downloading: bits.1 == 1,
                printing: bits.2 == 1,
                display: bits.3 == 1,
                roadside_calibration_checking: bits.4 == 1,
            },
        )
    }
}

impl Parse for ControlTypeGen2 {
    open spec fn parse_ok(d: Seq<u8>, p: int) -> bool {
        bytes_ok(d, p, 1)
    }

    open spec fn parse_end(d: Seq<u8>, p: int) -> int {
        bytes_end(d, p, 1)
    }

    open spec fn parse_err(d: Seq<u8>, p: int) -> ParseError {
        ParseError::UnexpectedEnd
    }

    open spec fn parsed_as(d: Seq<u8>, p: int, v: ControlTypeGen2) -> bool {
        &&& v.card_downloading == ((d[p] >> 7u8) & 1 == 1)
        &&& v.vu_downloading == ((d[p] >> 6u8) & 1 == 1)
        &&& v.printing == ((d[p] >> 5u8) & 1 == 1)
        &&& v.display == ((d[p] >> 4u8) & 1 == 1)
        &&& v.roadside_calibration_checking == ((d[p] >> 3u8) & 1 == 1)
    }

    fn parse(cursor: &mut Cursor) -> (res: Result<ControlTypeGen2, ParseError>) {
        ControlTypeGen2::parse(cursor)
    }
}

/// The signed value of a 24-bit two's complement number.
pub open spec fn signed24(x: int) -> int {
    if x >= 0x800000 {
        x - 0x1000000
    } else {
        x
    }
}

/// The whole degrees of a stored coordinate, and its minutes in tenths,
/// as the digits of its seven-character decimal form `±DDDMMM` give them.
pub open spec fn coordinate_parts(raw: int) -> Option<(int, int)> {
    if -999999 <= raw <= 999999 {
        if raw >= 0 {
            Some((raw / 1000, raw % 1000))
        } else {
            Some((-((-raw) / 1000), (-raw) % 1000))
        }
    } else {
        None
    }
}

/// GeoCoordinates (appendix 2.76): latitude and longitude, each a signed
/// 24-bit number of the form ±DDDMM.M times ten.
#[derive(Debug, Clone, Copy, PartialEq, Eq, Structural)]
pub struct GeoCoordinatesGen2 {
    pub latitude: i32,
    pub longitude: i32,
}

impl GeoCoordinatesGen2 {
    /// Sign-extends a 24-bit two's complement number.
    fn from_u24(x: u32) -> (r: i32)
        requires
            x < 0x1000000,
        ensures
            r == signed24(x as int),
    {
        if x >= 0x800000 {
            (x as i32) - 0x1000000
        } else {
            x as i32
        }
    }

    /// Splits a stored coordinate into whole degrees and tenths of minutes;
    /// `None` when it has more than six digits.
    pub fn decode_coordinate(raw: i32) -> (r: Option<(i32, u32)>)
        ensures
            match coordinate_parts(raw as int) {
                Some((deg, min)) => r == Some((deg as i32, min as u32)),
                None => r is None,
            },
    {
        if raw < -999999 || raw > 999999 {
            None
        } else if raw >= 0 {
            Some((raw / 1000, (raw % 1000) as u32))
        } else {
            let a: i32 = -raw;
            Some((-(a / 1000), (a % 1000) as u32))
        }
    }
}

impl GeoCoordinatesGen2 {
    /// Reads a `GeoCoordinatesGen2` at the reader's position.
    pub fn parse(cursor: &mut Cursor) -> (res: Result<GeoCoordinatesGen2, ParseError>)
        ensures
            final(cursor).data() == old(cursor).data(),
            old(cursor).pos() <= final(cursor).pos(),
            final(cursor).pos() == GeoCoordinatesGen2::parse_end(old(cursor).data(), old(cursor).pos()),
            res is Ok <==> GeoCoordinatesGen2::parse_ok(old(cursor).data(), old(cursor).pos()),
            res matches Ok(v) ==> GeoCoordinatesGen2::parsed_as(old(cursor).data(), old(cursor).pos(), v),
            res matches Err(e) ==> e == GeoCoordinatesGen2::parse_err(old(cursor).data(), old(cursor).pos()),
    {
        let lat = cursor.read_u24_be()?;
        let lon = cursor.read_u24_be()?;
        Ok(
            GeoCoordinatesGen2 {
                latitude: GeoCoordinatesGen2::from_u24(lat),
                longitude: GeoCoordinatesGen2::from_u24(lon),
            },
        )
    }
}

impl Parse for GeoCoordinatesGen2 {
    open spec fn parse_ok(d: Seq<u8>, p: int) -> bool {
        bytes_ok(d, p, 6)
    }

    open spec fn parse_end(d: Seq<u8>, p: int) -> int {
        bytes_end(d, p, 6)
    }

    open spec fn parse_err(d: Seq<u8>, p: int) -> ParseError {
        ParseError::UnexpectedEnd
    }

    open spec fn parsed_as(d: Seq<u8>, p: int, v: GeoCoordinatesGen2) -> bool {
        &&& v.latitude == signed24(be24(d, p))
        &&& v.longitude == signed24(be24(d, p + 3))
    }

    fn parse(cursor: &mut Cursor) -> (res: Result<GeoCoordinatesGen2, ParseError>) {
        GeoCoordinatesGen2::parse(cursor)
    }
}

/// VuAbility (appendix 2.169): whether the vehicle unit supports generation 2,
/// as its lowest bit says.
#[derive(Debug, Clone, Copy, PartialEq, Eq, Structural)]
pub enum VuAbilityGen2 {
    SupportsGen1,
    SupportsGen2,
    RFU,
}

impl VuAbilityGen2 {
    /// Reads a `VuAbilityGen2` at the reader's position.
    pub fn parse(cursor: &mut Cursor) -> (res: Result<VuAbilityGen2, ParseError>)
        ensures
            final(cursor).data() == old(cursor).data(),
            old(cursor).pos() <= final(cursor).pos(),
            final(cursor).pos() == VuAbilityGen2::parse_end(old(cursor).data(), old(cursor).pos()),
            res is Ok <==> VuAbilityGen2::parse_ok(old(cursor).data(), old(cursor).pos()),
            res matches Ok(v) ==> VuAbilityGen2::parsed_as(old(cursor).data(), old(cursor).pos(), v),
            res matches Err(e) ==> e == VuAbilityGen2::parse_err(old(cursor).data(), old(cursor).pos()),
    {
        let value = cursor.read_u8()?;
        let bits = extract_u8_bits_into_tup(value);
        if bits.7 == 0 {
            Ok(VuAbilityGen2::SupportsGen1)
        } else {
            Ok(VuAbilityGen2::SupportsGen2)
        }
    }
}

impl Parse for VuAbilityGen2 {
    open spec fn parse_ok(d: Seq<u8>, p: int) -> bool {
        bytes_ok(d, p, 1)
    }

    open spec fn parse_end(d: Seq<u8>, p: int) -> int {
        bytes_end(d, p, 1)
    }

    open spec fn parse_err(d: Seq<u8>, p: int) -> ParseError {
        ParseError::UnexpectedEnd
    }

    open spec fn parsed_as(d: Seq<u8>, p: int, v: VuAbilityGen2) -> bool {
        v == if d[p] & 1 == 0 {
            VuAbilityGen2::SupportsGen1
        } else {
            VuAbilityGen2::SupportsGen2
        }
    }

    fn parse(cursor: &mut Cursor) -> (res: Result<VuAbilityGen2, ParseError>) {
        VuAbilityGen2::parse(cursor)
    }
}

/// ManufacturerSpecificEventFaultData (appendix 2.95): a known manufacturer
/// code and three bytes of its own error code.
#[derive(Debug)]
pub struct ManufacturerSpecificEventFaultDataGen2 {
    pub manufacturer_code: ManufacturerCode,
    pub manufacturer_specific_error_code: Vec<u8>,
}

impl ManufacturerSpecificEventFaultDataGen2 {
    /// Reads a `ManufacturerSpecificEventFaultDataGen2` at the reader's position.
    pub fn parse(cursor: &mut Cursor) -> (res: Result<ManufacturerSpecificEventFaultDataGen2, ParseError>)
        ensures
            final(cursor).data() == old(cursor).data(),
            old(cursor).pos() <= final(cursor).pos(),
            final(cursor).pos() == ManufacturerSpecificEventFaultDataGen2::parse_end(old(cursor).data(), old(cursor).pos()),
            res is Ok <==> ManufacturerSpecificEventFaultDataGen2::parse_ok(old(cursor).data(), old(cursor).pos()),
            res matches Ok(v) ==> ManufacturerSpecificEventFaultDataGen2::parsed_as(old(cursor).data(), old(cursor).pos(), v),
            res matches Err(e) ==> e == ManufacturerSpecificEventFaultDataGen2::parse_err(old(cursor).data(), old(cursor).pos()),
    {
        let manufacturer_code = parse_optional::<ManufacturerCode>(cursor);
        let manufacturer_specific_error_code = cursor.read_bytes(3)?;
        match manufacturer_code {
            Some(manufacturer_code) => Ok(
                ManufacturerSpecificEventFaultDataGen2 {
                    manufacturer_code,
                    manufacturer_specific_error_code,
                },
            ),
            None => Err(ParseError::InvalidValue),
        }
    }
}

impl Parse for ManufacturerSpecificEventFaultDataGen2 {
    open spec fn parse_ok(d: Seq<u8>, p: int) -> bool {
        bytes_ok(d, ManufacturerCode::parse_end(d, p), 3) && ManufacturerCode::parse_ok(d, p)
    }

    open spec fn parse_end(d: Seq<u8>, p: int) -> int {
        bytes_end(d, ManufacturerCode::parse_end(d, p), 3)
    }

    open spec fn parse_err(d: Seq<u8>, p: int) -> ParseError {
        if !bytes_ok(d, ManufacturerCode::parse_end(d, p), 3) {
            ParseError::UnexpectedEnd
        } else {
            ParseError::InvalidValue
        }
    }

    open spec fn parsed_as(d: Seq<u8>, p: int, v: ManufacturerSpecificEventFaultDataGen2) -> bool {
        let q = ManufacturerCode::parse_end(d, p);
        &&& ManufacturerCode::parsed_as(d, p, v.manufacturer_code)
        &&& v.manufacturer_specific_error_code@ == d.subrange(q, q + 3)
    }

    fn parse(cursor: &mut Cursor) -> (res: Result<ManufacturerSpecificEventFaultDataGen2, ParseError>) {
        ManufacturerSpecificEventFaultDataGen2::parse(cursor)
    }
}

/// The positions, among the first `k` seal records from `p`, of those whose
/// equipment type is not "unused".
pub open spec fn used_seal_positions(d: Seq<u8>, p: int, k: nat) -> Seq<int>
    decreases k,
{
    if k == 0 {
        Seq::empty()
    } else {
        let prev = used_seal_positions(d, p, (k - 1) as nat);
        let q = attempt_pos::<SealRecordGen2>(d, p, (k - 1) as nat);
        if EquipmentTypeGen2::from_byte(d[q]) != Some(EquipmentTypeGen2::Unused) {
            prev.push(q)
        } else {
            prev
        }
    }
}

/// SealDataVu (appendix 2.129): five seal records, of which those of
/// equipment type "unused" are left out.
#[derive(Debug)]
pub struct SealDataVuGen2 {
    pub seal_records: Vec<SealRecordGen2>,
}

impl SealDataVuGen2 {
    /// Reads a `SealDataVuGen2` at the reader's position.
    pub fn parse(cursor: &mut Cursor) -> (res: Result<SealDataVuGen2, ParseError>)
        ensures
            final(cursor).data() == old(cursor).data(),
            old(cursor).pos() <= final(cursor).pos(),
            final(cursor).pos() == SealDataVuGen2::parse_end(old(cursor).data(), old(cursor).pos()),
            res is Ok <==> SealDataVuGen2::parse_ok(old(cursor).data(), old(cursor).pos()),
            res matches Ok(v) ==> SealDataVuGen2::parsed_as(old(cursor).data(), old(cursor).pos(), v),
            res matches Err(e) ==> e == SealDataVuGen2::parse_err(old(cursor).data(), old(cursor).pos()),
    {
        let ghost d = old(cursor).data();
        let ghost p = old(cursor).pos();
        let mut all = parse_counted::<SealRecordGen2>(cursor, 5)?;
        let ghost orig = all@;
        let mut seal_records: Vec<SealRecordGen2> = Vec::new();
        let mut i: usize = 0;
        while i < 5
            invariant
                i <= 5,
                values_at(d, attempt_positions::<SealRecordGen2>(d, p, 5), orig),
                all@ == orig.subrange(i as int, 5),
                values_at(d, used_seal_positions(d, p, i as nat), seal_records@),
            decreases 5 - i,
        {
            let seal = all.remove(0);
            let ghost q = attempt_pos::<SealRecordGen2>(d, p, i as nat);
            assert(seal == orig[i as int]);
            assert(SealRecordGen2::parsed_as(d, attempt_positions::<SealRecordGen2>(d, p, 5)[i as int], orig[i as int]));
            let ghost before = seal_records@;
            if seal.equipment_type != EquipmentTypeGen2::Unused {
                seal_records.push(seal);
                proof {
                    let ps = used_seal_positions(d, p, (i + 1) as nat);
                    assert(ps == used_seal_positions(d, p, i as nat).push(q));
                    assert forall|j: int| 0 <= j < seal_records@.len() implies #[trigger] SealRecordGen2::parsed_as(
                        d,
                        ps[j],
                        seal_records@[j],
                    ) by {
                        if j < before.len() {
                            assert(seal_records@[j] == before[j]);
                        }
                    }
                }
            }
            proof {
                assert(all@ =~= orig.subrange(i + 1, 5));
            }
            i = i + 1;
        }
        Ok(SealDataVuGen2 { seal_records })
    }
}

impl Parse for SealDataVuGen2 {
    open spec fn parse_ok(d: Seq<u8>, p: int) -> bool {
        leading_successes::<SealRecordGen2>(d, p, 5) == 5
    }

    open spec fn parse_end(d: Seq<u8>, p: int) -> int {
        counted_end::<SealRecordGen2>(d, p, 5)
    }

    open spec fn parse_err(d: Seq<u8>, p: int) -> ParseError {
        counted_err::<SealRecordGen2>(d, p, 5)
    }

    open spec fn parsed_as(d: Seq<u8>, p: int, v: SealDataVuGen2) -> bool {
        values_at(d, used_seal_positions(d, p, 5), v.seal_records@)
    }

    fn parse(cursor: &mut Cursor) -> (res: Result<SealDataVuGen2, ParseError>) {
        SealDataVuGen2::parse(cursor)
    }
}

/// EquipmentType (appendix 2.67) as generation 2 defines it.
#[derive(Debug, Clone, Copy, PartialEq, Eq, Structural)]
pub enum EquipmentTypeGen2 {
    Reserved,
    DriverCard,
    WorkshopCard,
    ControlCard,
    CompanyCard,
    ManufacturingCard,
    VehicleUnit,
    MotionSensor,
    GNSSFacility,
    RemoteCommunicationDevice,
    ITSinterfaceModule,
    Plaque,
    M1N1Adapter,
    CAERCA,
    CAMSCA,
    ExternalGNSSConnection,
    Unused,
    DriverCardSign,
    WorkshopCardSign,
    VehicleUnitSign,
    RFU,
}

impl EquipmentTypeGen2 {
    /// The value that the byte `b` encodes, if any.
    pub open spec fn from_byte(b: u8) -> Option<EquipmentTypeGen2> {
        if b == 0x00 {
            Some(EquipmentTypeGen2::Reserved)
        } else if b == 0x01 {
            Some(EquipmentTypeGen2::DriverCard)
        } else if b == 0x02 {
            Some(EquipmentTypeGen2::WorkshopCard)
        } else if b == 0x03 {
            Some(EquipmentTypeGen2::ControlCard)
        } else if b == 0x04 {
            Some(EquipmentTypeGen2::CompanyCard)
        } else if b == 0x05 {
            Some(EquipmentTypeGen2::ManufacturingCard)
        } else if b == 0x06 {
            Some(EquipmentTypeGen2::VehicleUnit)
        } else if b == 0x07 {
            Some(EquipmentTypeGen2::MotionSensor)
        } else if b == 0x08 {
            Some(EquipmentTypeGen2::GNSSFacility)
        } else if b == 0x09 {
            Some(EquipmentTypeGen2::RemoteCommunicationDevice)
        } else if b == 0x0A {
            Some(EquipmentTypeGen2::ITSinterfaceModule)
        } else if b == 0x0B {
            Some(EquipmentTypeGen2::Plaque)
        } else if b == 0x0C {
            Some(EquipmentTypeGen2::M1N1Adapter)
        } else if b == 0x0D {
            Some(EquipmentTypeGen2::CAERCA)
        } else if b == 0x0E {
            Some(EquipmentTypeGen2::CAMSCA)
        } else if b == 0x0F {
            Some(EquipmentTypeGen2::ExternalGNSSConnection)
        } else if b == 0x10 {
            Some(EquipmentTypeGen2::Unused)
        } else if b == 0x11 {
            Some(EquipmentTypeGen2::DriverCardSign)
        } else if b == 0x12 {
            Some(EquipmentTypeGen2::WorkshopCardSign)
        } else if b == 0x13 {
            Some(EquipmentTypeGen2::VehicleUnitSign)
        } else {
            Some(EquipmentTypeGen2::RFU)
        }
    }

    /// Decodes one byte.
    pub fn decode(b: u8) -> (r: Option<EquipmentTypeGen2>)
        ensures
            r == EquipmentTypeGen2::from_byte(b),
    {
        if b == 0x00 {
            Some(EquipmentTypeGen2::Reserved)
        } else if b == 0x01 {
            Some(EquipmentTypeGen2::DriverCard)
        } else if b == 0x02 {
            Some(EquipmentTypeGen2::WorkshopCard)
        } else if b == 0x03 {
            Some(EquipmentTypeGen2::ControlCard)
        } else if b == 0x04 {
            Some(EquipmentTypeGen2::CompanyCard)
        } else if b == 0x05 {
            Some(EquipmentTypeGen2::ManufacturingCard)
        } else if b == 0x06 {
            Some(EquipmentTypeGen2::VehicleUnit)
        } else if b == 0x07 {
            Some(EquipmentTypeGen2::MotionSensor)
        } else if b == 0x08 {
            Some(EquipmentTypeGen2::GNSSFacility)
        } else if b == 0x09 {
            Some(EquipmentTypeGen2::RemoteCommunicationDevice)
        } else if b == 0x0A {
            Some(EquipmentTypeGen2::ITSinterfaceModule)
        } else if b == 0x0B {
            Some(EquipmentTypeGen2::Plaque)
        } else if b == 0x0C {
            Some(EquipmentTypeGen2::M1N1Adapter)
        } else if b == 0x0D {
            Some(EquipmentTypeGen2::CAERCA)
        } else if b == 0x0E {
            Some(EquipmentTypeGen2::CAMSCA)
        } else if b == 0x0F {
            Some(EquipmentTypeGen2::ExternalGNSSConnection)
        } else if b == 0x10 {
            Some(EquipmentTypeGen2::Unused)
        } else if b == 0x11 {
            Some(EquipmentTypeGen2::DriverCardSign)
        } else if b == 0x12 {
            Some(EquipmentTypeGen2::WorkshopCardSign)
        } else if b == 0x13 {
            Some(EquipmentTypeGen2::VehicleUnitSign)
        } else {
            Some(EquipmentTypeGen2::RFU)
        }
    }
}

impl EquipmentTypeGen2 {
    /// Reads a `EquipmentTypeGen2` at the reader's position.
    pub fn parse(cursor: &mut Cursor) -> (res: Result<EquipmentTypeGen2, ParseError>)
        ensures
            final(cursor).data() == old(cursor).data(),
            old(cursor).pos() <= final(cursor).pos(),
            final(cursor).pos() == EquipmentTypeGen2::parse_end(old(cursor).data(), old(cursor).pos()),
            res is Ok <==> EquipmentTypeGen2::parse_ok(old(cursor).data(), old(cursor).pos()),
            res matches Ok(v) ==> EquipmentTypeGen2::parsed_as(old(cursor).data(), old(cursor).pos(), v),
            res matches Err(e) ==> e == EquipmentTypeGen2::parse_err(old(cursor).data(), old(cursor).pos()),
    {
        let b = cursor.read_u8()?;
        match EquipmentTypeGen2::decode(b) {
            Some(v) => Ok(v),
            None => Err(ParseError::InvalidValue),
        }
    }
}

impl Parse for EquipmentTypeGen2 {
    open spec fn parse_ok(d: Seq<u8>, p: int) -> bool {
        bytes_ok(d, p, 1) && EquipmentTypeGen2::from_byte(d[p]) is Some
    }

    open spec fn parse_end(d: Seq<u8>, p: int) -> int {
        bytes_end(d, p, 1)
    }

    open spec fn parse_err(d: Seq<u8>, p: int) -> ParseError {
        if !bytes_ok(d, p, 1) {
            ParseError::UnexpectedEnd
        } else {
            ParseError::InvalidValue
        }
    }

    open spec fn parsed_as(d: Seq<u8>, p: int, v: EquipmentTypeGen2) -> bool {
        EquipmentTypeGen2::from_byte(d[p]) == Some(v)
    }

    fn parse(cursor: &mut Cursor) -> (res: Result<EquipmentTypeGen2, ParseError>) {
        EquipmentTypeGen2::parse(cursor)
    }
}

impl FullCardNumberGen2 {
    /// The card number that a card of type `t` has at `pos`: a driver card
    /// number, the number of a workshop, control or company card, or none.
    pub open spec fn card_number_as(t: Option<EquipmentTypeGen2>, d: Seq<u8>, pos: int, v: CardNumber) -> bool {
        match t {
            Some(EquipmentTypeGen2::DriverCard) => CardNumber::driver_as(d, pos, v),
            Some(EquipmentTypeGen2::WorkshopCard) | Some(EquipmentTypeGen2::ControlCard) | Some(
                EquipmentTypeGen2::CompanyCard,
            ) => CardNumber::owner_as(d, pos, v),
            _ => v is Unknown,
        }
    }

    fn parse_card_number(card_type: EquipmentTypeGen2, cursor: &mut Cursor) -> (res: Result<CardNumber, ParseError>)
        ensures
            final(cursor).data() == old(cursor).data(),
            old(cursor).pos() <= final(cursor).pos(),
            final(cursor).pos() == bytes_end(old(cursor).data(), old(cursor).pos(), 16),
            res is Ok <==> bytes_ok(old(cursor).data(), old(cursor).pos(), 16),
            res matches Err(e) ==> e == ParseError::UnexpectedEnd,
            res matches Ok(v) ==> FullCardNumberGen2::card_number_as(
                Some(card_type),
                old(cursor).data(),
                old(cursor).pos(),
                v,
            ),
    {
        match card_type {
            EquipmentTypeGen2::DriverCard => CardNumber::parse_driver(cursor),
            EquipmentTypeGen2::WorkshopCard | EquipmentTypeGen2::ControlCard
            | EquipmentTypeGen2::CompanyCard => CardNumber::parse_owner(cursor),
            _ => CardNumber::parse_unknown(cursor),
        }
    }
}

/// FullCardNumber (appendix 2.73) as generation 2 defines it: the card type, the issuing nation and the card number.
#[derive(Debug)]
pub struct FullCardNumberGen2 {
    pub card_type: EquipmentTypeGen2,
    pub card_issuing_member_state: NationNumeric,
    pub card_number: CardNumber,
}

impl FullCardNumberGen2 {
    /// Reads a `FullCardNumberGen2` at the reader's position.
    pub fn parse(cursor: &mut Cursor) -> (res: Result<FullCardNumberGen2, ParseError>)
        ensures
            final(cursor).data() == old(cursor).data(),
            old(cursor).pos() <= final(cursor).pos(),
            final(cursor).pos() == FullCardNumberGen2::parse_end(old(cursor).data(), old(cursor).pos()),
            res is Ok <==> FullCardNumberGen2::parse_ok(old(cursor).data(), old(cursor).pos()),
            res matches Ok(v) ==> FullCardNumberGen2::parsed_as(old(cursor).data(), old(cursor).pos(), v),
            res matches Err(e) ==> e == FullCardNumberGen2::parse_err(old(cursor).data(), old(cursor).pos()),
    {
        let card_type = EquipmentTypeGen2::parse(cursor)?;
        let card_issuing_member_state = NationNumeric::parse(cursor)?;
        let card_number = FullCardNumberGen2::parse_card_number(card_type, cursor)?;
        Ok(FullCardNumberGen2 { card_type, card_issuing_member_state, card_number })
    }
}

impl Parse for FullCardNumberGen2 {
    open spec fn parse_ok(d: Seq<u8>, p: int) -> bool {
        let p1 = EquipmentTypeGen2::parse_end(d, p);
        let p2 = NationNumeric::parse_end(d, p1);
        EquipmentTypeGen2::parse_ok(d, p)
            && NationNumeric::parse_ok(d, p1)
            && bytes_ok(d, p2, 16)
    }

    open spec fn parse_end(d: Seq<u8>, p: int) -> int {
        let p1 = EquipmentTypeGen2::parse_end(d, p);
        let p2 = NationNumeric::parse_end(d, p1);
        let p3 = bytes_end(d, p2, 16);
        if !EquipmentTypeGen2::parse_ok(d, p) {
            p1
        } else if !NationNumeric::parse_ok(d, p1) {
            p2
        } else if !bytes_ok(d, p2, 16) {
            p3
        } else {
            p3
        }
    }

    open spec fn parsed_as(d: Seq<u8>, p: int, v: FullCardNumberGen2) -> bool {
        let p1 = EquipmentTypeGen2::parse_end(d, p);
        let p2 = NationNumeric::parse_end(d, p1);
        EquipmentTypeGen2::parsed_as(d, p, v.card_type)
            && NationNumeric::parsed_as(d, p1, v.card_issuing_member_state)
            && FullCardNumberGen2::card_number_as(EquipmentTypeGen2::from_byte(d[p]), d, p2, v.card_number)
    }

    open spec fn parse_err(d: Seq<u8>, p: int) -> ParseError {
        let p1 = EquipmentTypeGen2::parse_end(d, p);
        let p2 = NationNumeric::parse_end(d, p1);
        if !EquipmentTypeGen2::parse_ok(d, p) {
            EquipmentTypeGen2::parse_err(d, p)
        } else if !NationNumeric::parse_ok(d, p1) {
            NationNumeric::parse_err(d, p1)
        } else if !bytes_ok(d, p2, 16) {
            ParseError::UnexpectedEnd
        } else {
            ParseError::InvalidValue
        }
    }

    fn parse(cursor: &mut Cursor) -> (res: Result<FullCardNumberGen2, ParseError>) {
        FullCardNumberGen2::parse(cursor)
    }
}

/// Generation (appendix 2.75).
#[derive(Debug, Clone, Copy, PartialEq, Eq, Structural)]
pub enum GenerationGen2 {
    Generation1,
    Generation2,
    RFU,
}

impl GenerationGen2 {
    /// The value that the byte `b` encodes, if any.
    pub open spec fn from_byte(b: u8) -> Option<GenerationGen2> {
        if b == 0x00 {
            Some(GenerationGen2::RFU)
        } else if b == 0x01 {
            Some(GenerationGen2::Generation1)
        } else if b == 0x02 {
            Some(GenerationGen2::Generation2)
        } else {
            Some(GenerationGen2::RFU)
        }
    }

    /// Decodes one byte.
    pub fn decode(b: u8) -> (r: Option<GenerationGen2>)
        ensures
            r == GenerationGen2::from_byte(b),
    {
        if b == 0x00 {
            Some(GenerationGen2::RFU)
        } else if b == 0x01 {
            Some(GenerationGen2::Generation1)
        } else if b == 0x02 {
            Some(GenerationGen2::Generation2)
        } else {
            Some(GenerationGen2::RFU)
        }
    }
}

impl GenerationGen2 {
    /// Reads a `GenerationGen2` at the reader's position.
    pub fn parse(cursor: &mut Cursor) -> (res: Result<GenerationGen2, ParseError>)
        ensures
            final(cursor).data() == old(cursor).data(),
            old(cursor).pos() <= final(cursor).pos(),
            final(cursor).pos() == GenerationGen2::parse_end(old(cursor).data(), old(cursor).pos()),
            res is Ok <==> GenerationGen2::parse_ok(old(cursor).data(), old(cursor).pos()),
            res matches Ok(v) ==> GenerationGen2::parsed_as(old(cursor).data(), old(cursor).pos(), v),
            res matches Err(e) ==> e == GenerationGen2::parse_err(old(cursor).data(), old(cursor).pos()),
    {
        let b = cursor.read_u8()?;
        match GenerationGen2::decode(b) {
            Some(v) => Ok(v),
            None => Err(ParseError::InvalidValue),
        }
    }
}

impl Parse for GenerationGen2 {
    open spec fn parse_ok(d: Seq<u8>, p: int) -> bool {
        bytes_ok(d, p, 1) && GenerationGen2::from_byte(d[p]) is Some
    }

    open spec fn parse_end(d: Seq<u8>, p: int) -> int {
        bytes_end(d, p, 1)
    }

    open spec fn parse_err(d: Seq<u8>, p: int) -> ParseError {
        if !bytes_ok(d, p, 1) {
            ParseError::UnexpectedEnd
        } else {
            ParseError::InvalidValue
        }
    }

    open spec fn parsed_as(d: Seq<u8>, p: int, v: GenerationGen2) -> bool {
        GenerationGen2::from_byte(d[p]) == Some(v)
    }

    fn parse(cursor: &mut Cursor) -> (res: Result<GenerationGen2, ParseError>) {
        GenerationGen2::parse(cursor)
    }
}

/// FullCardNumberAndGeneration (appendix 2.74): a card number and the generation of the card; a reserved generation is refused.
#[derive(Debug)]
pub struct FullCardNumberAndGenerationGen2 {
    pub full_card_number: FullCardNumberGen2,
    pub generation: GenerationGen2,
}

impl FullCardNumberAndGenerationGen2 {
    /// Reads a `FullCardNumberAndGenerationGen2` at the reader's position.
    pub fn parse(cursor: &mut Cursor) -> (res: Result<FullCardNumberAndGenerationGen2, ParseError>)
        ensures
            final(cursor).data() == old(cursor).data(),
            old(cursor).pos() <= final(cursor).pos(),
            final(cursor).pos() == FullCardNumberAndGenerationGen2::parse_end(old(cursor).data(), old(cursor).pos()),
            res is Ok <==> FullCardNumberAndGenerationGen2::parse_ok(old(cursor).data(), old(cursor).pos()),
            res matches Ok(v) ==> FullCardNumberAndGenerationGen2::parsed_as(old(cursor).data(), old(cursor).pos(), v),
            res matches Err(e) ==> e == FullCardNumberAndGenerationGen2::parse_err(old(cursor).data(), old(cursor).pos()),
    {
        let full_card_number = FullCardNumberGen2::parse(cursor)?;
        let generation = GenerationGen2::parse(cursor)?;
        if generation == GenerationGen2::RFU {
            return Err(ParseError::InvalidValue);
        }
        Ok(FullCardNumberAndGenerationGen2 { full_card_number, generation })
    }
}

impl Parse for FullCardNumberAndGenerationGen2 {
    open spec fn parse_ok(d: Seq<u8>, p: int) -> bool {
        let p1 = FullCardNumberGen2::parse_end(d, p);
        FullCardNumberGen2::parse_ok(d, p)
            && GenerationGen2::parse_ok(d, p1)
            && GenerationGen2::from_byte(d[p1]) != Some(GenerationGen2::RFU)
    }

    open spec fn parse_end(d: Seq<u8>, p: int) -> int {
        let p1 = FullCardNumberGen2::parse_end(d, p);
        let p2 = GenerationGen2::parse_end(d, p1);
        if !FullCardNumberGen2::parse_ok(d, p) {
            p1
        } else if !GenerationGen2::parse_ok(d, p1) {
            p2
        } else {
            p2
        }
    }

    open spec fn parsed_as(d: Seq<u8>, p: int, v: FullCardNumberAndGenerationGen2) -> bool {
        let p1 = FullCardNumberGen2::parse_end(d, p);
        FullCardNumberGen2::parsed_as(d, p, v.full_card_number)
            && GenerationGen2::parsed_as(d, p1, v.generation)
    }

    open spec fn parse_err(d: Seq<u8>, p: int) -> ParseError {
        let p1 = FullCardNumberGen2::parse_end(d, p);
        if !FullCardNumberGen2::parse_ok(d, p) {
            FullCardNumberGen2::parse_err(d, p)
        } else if !GenerationGen2::parse_ok(d, p1) {
            GenerationGen2::parse_err(d, p1)
        } else {
            ParseError::InvalidValue
        }
    }

    fn parse(cursor: &mut Cursor) -> (res: Result<FullCardNumberAndGenerationGen2, ParseError>) {
        FullCardNumberAndGenerationGen2::parse(cursor)
    }
}

/// PreviousVehicleInfo (appendix 2.118) as generation 2 defines it.
#[derive(Debug)]
pub struct PreviousVehicleInfoGen2 {
    pub vehicle_registration_identification: VehicleRegistrationIdentification,
    pub card_withdrawal_time: Option<TimeReal>,
    pub vu_generation: GenerationGen2,
}

impl PreviousVehicleInfoGen2 {
    /// Reads a `PreviousVehicleInfoGen2` at the reader's position.
    pub fn parse(cursor: &mut Cursor) -> (res: Result<PreviousVehicleInfoGen2, ParseError>)
        ensures
            final(cursor).data() == old(cursor).data(),
            old(cursor).pos() <= final(cursor).pos(),
            final(cursor).pos() == PreviousVehicleInfoGen2::parse_end(old(cursor).data(), old(cursor).pos()),
            res is Ok <==> PreviousVehicleInfoGen2::parse_ok(old(cursor).data(), old(cursor).pos()),
            res matches Ok(v) ==> PreviousVehicleInfoGen2::parsed_as(old(cursor).data(), old(cursor).pos(), v),
            res matches Err(e) ==> e == PreviousVehicleInfoGen2::parse_err(old(cursor).data(), old(cursor).pos()),
    {
        let vehicle_registration_identification = VehicleRegistrationIdentification::parse(cursor)?;
        let card_withdrawal_time = parse_optional::<TimeReal>(cursor);
        let vu_generation = GenerationGen2::parse(cursor)?;
        Ok(PreviousVehicleInfoGen2 { vehicle_registration_identification, card_withdrawal_time, vu_generation })
    }
}

impl Parse for PreviousVehicleInfoGen2 {
    open spec fn parse_ok(d: Seq<u8>, p: int) -> bool {
        let p1 = VehicleRegistrationIdentification::parse_end(d, p);
        let p2 = TimeReal::parse_end(d, p1);
        VehicleRegistrationIdentification::parse_ok(d, p)
            && GenerationGen2::parse_ok(d, p2)
    }

    open spec fn parse_end(d: Seq<u8>, p: int) -> int {
        let p1 = VehicleRegistrationIdentification::parse_end(d, p);
        let p2 = TimeReal::parse_end(d, p1);
        let p3 = GenerationGen2::parse_end(d, p2);
        if !VehicleRegistrationIdentification::parse_ok(d, p) {
            p1
        } else if !GenerationGen2::parse_ok(d, p2) {
            p3
        } else {
            p3
        }
    }

    open spec fn parsed_as(d: Seq<u8>, p: int, v: PreviousVehicleInfoGen2) -> bool {
        let p1 = VehicleRegistrationIdentification::parse_end(d, p);
        let p2 = TimeReal::parse_end(d, p1);
        VehicleRegistrationIdentification::parsed_as(d, p, v.vehicle_registration_identification)
            && optional_as::<TimeReal>(d, p1, v.card_withdrawal_time)
            && GenerationGen2::parsed_as(d, p2, v.vu_generation)
    }

    open spec fn parse_err(d: Seq<u8>, p: int) -> ParseError {
        let p1 = VehicleRegistrationIdentification::parse_end(d, p);
        let p2 = TimeReal::parse_end(d, p1);
        if !VehicleRegistrationIdentification::parse_ok(d, p) {
            VehicleRegistrationIdentification::parse_err(d, p)
        } else if !GenerationGen2::parse_ok(d, p2) {
            GenerationGen2::parse_err(d, p2)
        } else {
            ParseError::InvalidValue
        }
    }

    fn parse(cursor: &mut Cursor) -> (res: Result<PreviousVehicleInfoGen2, ParseError>) {
        PreviousVehicleInfoGen2::parse(cursor)
    }
}

/// GNSSAccuracy (appendix 2.77): 0 to 100; a larger value is refused.
#[derive(Debug)]
pub struct GNSSAccuracyGen2 {
    pub value: u8,
}

impl GNSSAccuracyGen2 {
    /// Reads a `GNSSAccuracyGen2` at the reader's position.
    pub fn parse(cursor: &mut Cursor) -> (res: Result<GNSSAccuracyGen2, ParseError>)
        ensures
            final(cursor).data() == old(cursor).data(),
            old(cursor).pos() <= final(cursor).pos(),
            final(cursor).pos() == GNSSAccuracyGen2::parse_end(old(cursor).data(), old(cursor).pos()),
            res is Ok <==> GNSSAccuracyGen2::parse_ok(old(cursor).data(), old(cursor).pos()),
            res matches Ok(v) ==> GNSSAccuracyGen2::parsed_as(old(cursor).data(), old(cursor).pos(), v),
            res matches Err(e) ==> e == GNSSAccuracyGen2::parse_err(old(cursor).data(), old(cursor).pos()),
    {
        let value = u8::parse(cursor)?;
        if value > 100 {
            return Err(ParseError::InvalidValue);
        }
        Ok(GNSSAccuracyGen2 { value })
    }
}

impl Parse for GNSSAccuracyGen2 {
    open spec fn parse_ok(d: Seq<u8>, p: int) -> bool {
        u8::parse_ok(d, p)
            && d[p] <= 100
    }

    open spec fn parse_end(d: Seq<u8>, p: int) -> int {
        let p1 = u8::parse_end(d, p);
        if !u8::parse_ok(d, p) {
            p1
        } else {
            p1
        }
    }

    open spec fn parsed_as(d: Seq<u8>, p: int, v: GNSSAccuracyGen2) -> bool {
        u8::parsed_as(d, p, v.value)
    }

    open spec fn parse_err(d: Seq<u8>, p: int) -> ParseError {
        if !u8::parse_ok(d, p) {
            u8::parse_err(d, p)
        } else {
            ParseError::InvalidValue
        }
    }

    fn parse(cursor: &mut Cursor) -> (res: Result<GNSSAccuracyGen2, ParseError>) {
        GNSSAccuracyGen2::parse(cursor)
    }
}

/// GNSSPlaceRecord (appendix 2.80).
#[derive(Debug)]
pub struct GNSSPlaceRecordGen2 {
    pub time_stamp: TimeReal,
    pub gnss_accuracy: GNSSAccuracyGen2,
    pub geo_coordinates: GeoCoordinatesGen2,
}

impl GNSSPlaceRecordGen2 {
    /// Reads a `GNSSPlaceRecordGen2` at the reader's position.
    pub fn parse(cursor: &mut Cursor) -> (res: Result<GNSSPlaceRecordGen2, ParseError>)
        ensures
            final(cursor).data() == old(cursor).data(),
            old(cursor).pos() <= final(cursor).pos(),
            final(cursor).pos() == GNSSPlaceRecordGen2::parse_end(old(cursor).data(), old(cursor).pos()),
            res is Ok <==> GNSSPlaceRecordGen2::parse_ok(old(cursor).data(), old(cursor).pos()),
            res matches Ok(v) ==> GNSSPlaceRecordGen2::parsed_as(old(cursor).data(), old(cursor).pos(), v),
            res matches Err(e) ==> e == GNSSPlaceRecordGen2::parse_err(old(cursor).data(), old(cursor).pos()),
    {
        let time_stamp = TimeReal::parse(cursor)?;
        let gnss_accuracy = GNSSAccuracyGen2::parse(cursor)?;
        let geo_coordinates = GeoCoordinatesGen2::parse(cursor)?;
        Ok(GNSSPlaceRecordGen2 { time_stamp, gnss_accuracy, geo_coordinates })
    }
}

impl Parse for GNSSPlaceRecordGen2 {
    open spec fn parse_ok(d: Seq<u8>, p: int) -> bool {
        let p1 = TimeReal::parse_end(d, p);
        let p2 = GNSSAccuracyGen2::parse_end(d, p1);
        TimeReal::parse_ok(d, p)
            && GNSSAccuracyGen2::parse_ok(d, p1)
            && GeoCoordinatesGen2::parse_ok(d, p2)
    }

    open spec fn parse_end(d: Seq<u8>, p: int) -> int {
        let p1 = TimeReal::parse_end(d, p);
        let p2 = GNSSAccuracyGen2::parse_end(d, p1);
        let p3 = GeoCoordinatesGen2::parse_end(d, p2);
        if !TimeReal::parse_ok(d, p) {
            p1
        } else if !GNSSAccuracyGen2::parse_ok(d, p1) {
            p2
        } else if !GeoCoordinatesGen2::parse_ok(d, p2) {
            p3
        } else {
            p3
        }
    }

    open spec fn parsed_as(d: Seq<u8>, p: int, v: GNSSPlaceRecordGen2) -> bool {
        let p1 = TimeReal::parse_end(d, p);
        let p2 = GNSSAccuracyGen2::parse_end(d, p1);
        TimeReal::parsed_as(d, p, v.time_stamp)
            && GNSSAccuracyGen2::parsed_as(d, p1, v.gnss_accuracy)
            && GeoCoordinatesGen2::parsed_as(d, p2, v.geo_coordinates)
    }

    open spec fn parse_err(d: Seq<u8>, p: int) -> ParseError {
        let p1 = TimeReal::parse_end(d, p);
        let p2 = GNSSAccuracyGen2::parse_end(d, p1);
        if !TimeReal::parse_ok(d, p) {
            TimeReal::parse_err(d, p)
        } else if !GNSSAccuracyGen2::parse_ok(d, p1) {
            GNSSAccuracyGen2::parse_err(d, p1)
        } else if !GeoCoordinatesGen2::parse_ok(d, p2) {
            GeoCoordinatesGen2::parse_err(d, p2)
        } else {
            ParseError::InvalidValue
        }
    }

    fn parse(cursor: &mut Cursor) -> (res: Result<GNSSPlaceRecordGen2, ParseError>) {
        GNSSPlaceRecordGen2::parse(cursor)
    }
}

/// VuGNSSADRecord (appendix 2.203).
#[derive(Debug)]
pub struct VuGNSSADRecordGen2 {
    pub time_stamp: TimeReal,
    pub card_number_and_gen_driver_slot: Option<FullCardNumberAndGenerationGen2>,
    pub card_number_and_gen_codriver_slot: Option<FullCardNumberAndGenerationGen2>,
    pub gnss_place_record: GNSSPlaceRecordGen2,
    pub vehicle_odometer_value: OdometerShort,
}

impl VuGNSSADRecordGen2 {
    /// Reads a `VuGNSSADRecordGen2` at the reader's position.
    pub fn parse(cursor: &mut Cursor) -> (res: Result<VuGNSSADRecordGen2, ParseError>)
        ensures
            final(cursor).data() == old(cursor).data(),
            old(cursor).pos() <= final(cursor).pos(),
            final(cursor).pos() == VuGNSSADRecordGen2::parse_end(old(cursor).data(), old(cursor).pos()),
            res is Ok <==> VuGNSSADRecordGen2::parse_ok(old(cursor).data(), old(cursor).pos()),
            res matches Ok(v) ==> VuGNSSADRecordGen2::parsed_as(old(cursor).data(), old(cursor).pos(), v),
            res matches Err(e) ==> e == VuGNSSADRecordGen2::parse_err(old(cursor).data(), old(cursor).pos()),
    {
        let time_stamp = TimeReal::parse(cursor)?;
        let card_number_and_gen_driver_slot = parse_optional::<FullCardNumberAndGenerationGen2>(cursor);
        let card_number_and_gen_codriver_slot = parse_optional::<FullCardNumberAndGenerationGen2>(cursor);
        let gnss_place_record = GNSSPlaceRecordGen2::parse(cursor)?;
        let vehicle_odometer_value = OdometerShort::parse(cursor)?;
        Ok(VuGNSSADRecordGen2 { time_stamp, card_number_and_gen_driver_slot, card_number_and_gen_codriver_slot, gnss_place_record, vehicle_odometer_value })
    }
}

impl Parse for VuGNSSADRecordGen2 {
    open spec fn parse_ok(d: Seq<u8>, p: int) -> bool {
        let p1 = TimeReal::parse_end(d, p);
        let p2 = FullCardNumberAndGenerationGen2::parse_end(d, p1);
        let p3 = FullCardNumberAndGenerationGen2::parse_end(d, p2);
        let p4 = GNSSPlaceRecordGen2::parse_end(d, p3);
        TimeReal::parse_ok(d, p)
            && GNSSPlaceRecordGen2::parse_ok(d, p3)
            && OdometerShort::parse_ok(d, p4)
    }

    open spec fn parse_end(d: Seq<u8>, p: int) -> int {
        let p1 = TimeReal::parse_end(d, p);
        let p2 = FullCardNumberAndGenerationGen2::parse_end(d, p1);
        let p3 = FullCardNumberAndGenerationGen2::parse_end(d, p2);
        let p4 = GNSSPlaceRecordGen2::parse_end(d, p3);
        let p5 = OdometerShort::parse_end(d, p4);
        if !TimeReal::parse_ok(d, p) {
            p1
        } else if !GNSSPlaceRecordGen2::parse_ok(d, p3) {
            p4
        } else if !OdometerShort::parse_ok(d, p4) {
            p5
        } else {
            p5
        }
    }

    open spec fn parsed_as(d: Seq<u8>, p: int, v: VuGNSSADRecordGen2) -> bool {
        let p1 = TimeReal::parse_end(d, p);
        let p2 = FullCardNumberAndGenerationGen2::parse_end(d, p1);
        let p3 = FullCardNumberAndGenerationGen2::parse_end(d, p2);
        let p4 = GNSSPlaceRecordGen2::parse_end(d, p3);
        TimeReal::parsed_as(d, p, v.time_stamp)
            && optional_as::<FullCardNumberAndGenerationGen2>(d, p1, v.card_number_and_gen_driver_slot)
            && optional_as::<FullCardNumberAndGenerationGen2>(d, p2, v.card_number_and_gen_codriver_slot)
            && GNSSPlaceRecordGen2::parsed_as(d, p3, v.gnss_place_record)
            && OdometerShort::parsed_as(d, p4, v.vehicle_odometer_value)
    }

    open spec fn parse_err(d: Seq<u8>, p: int) -> ParseError {
        let p1 = TimeReal::parse_end(d, p);
        let p2 = FullCardNumberAndGenerationGen2::parse_end(d, p1);
        let p3 = FullCardNumberAndGenerationGen2::parse_end(d, p2);
        let p4 = GNSSPlaceRecordGen2::parse_end(d, p3);
        if !TimeReal::parse_ok(d, p) {
            TimeReal::parse_err(d, p)
        } else if !GNSSPlaceRecordGen2::parse_ok(d, p3) {
            GNSSPlaceRecordGen2::parse_err(d, p3)
        } else if !OdometerShort::parse_ok(d, p4) {
            OdometerShort::parse_err(d, p4)
        } else {
            ParseError::InvalidValue
        }
    }

    fn parse(cursor: &mut Cursor) -> (res: Result<VuGNSSADRecordGen2, ParseError>) {
        VuGNSSADRecordGen2::parse(cursor)
    }
}

/// EntryTypeDailyWorkPeriod (appendix 2.66) as generation 2 defines it.
#[derive(Debug, Clone, Copy, PartialEq, Eq, Structural)]
pub enum EntryTypeDailyWorkPeriodGen2 {
    BeginRelatedTimeCardInsertionTimeOrTimeOfEntry,
    EndRelatedTimeCardWithdrawalTimeOrTimeOfEntry,
    BeginRelatedTimeManuallyEntered,
    EndRelatedTimeManuallyEntered,
}

impl EntryTypeDailyWorkPeriodGen2 {
    /// The value that the byte `b` encodes, if any.
    pub open spec fn from_byte(b: u8) -> Option<EntryTypeDailyWorkPeriodGen2> {
        if b == 0x00 {
            Some(EntryTypeDailyWorkPeriodGen2::BeginRelatedTimeCardInsertionTimeOrTimeOfEntry)
        } else if b == 0x01 {
            Some(EntryTypeDailyWorkPeriodGen2::EndRelatedTimeCardWithdrawalTimeOrTimeOfEntry)
        } else if b == 0x02 {
            Some(EntryTypeDailyWorkPeriodGen2::BeginRelatedTimeManuallyEntered)
        } else if b == 0x03 {
            Some(EntryTypeDailyWorkPeriodGen2::EndRelatedTimeManuallyEntered)
        } else {
            None
        }
    }

    /// Decodes one byte.
    pub fn decode(b: u8) -> (r: Option<EntryTypeDailyWorkPeriodGen2>)
        ensures
            r == EntryTypeDailyWorkPeriodGen2::from_byte(b),
    {
        if b == 0x00 {
            Some(EntryTypeDailyWorkPeriodGen2::BeginRelatedTimeCardInsertionTimeOrTimeOfEntry)
        } else if b == 0x01 {
            Some(EntryTypeDailyWorkPeriodGen2::EndRelatedTimeCardWithdrawalTimeOrTimeOfEntry)
        } else if b == 0x02 {
            Some(EntryTypeDailyWorkPeriodGen2::BeginRelatedTimeManuallyEntered)
        } else if b == 0x03 {
            Some(EntryTypeDailyWorkPeriodGen2::EndRelatedTimeManuallyEntered)
        } else {
            None
        }
    }
}

impl EntryTypeDailyWorkPeriodGen2 {
    /// Reads a `EntryTypeDailyWorkPeriodGen2` at the reader's position.
    pub fn parse(cursor: &mut Cursor) -> (res: Result<EntryTypeDailyWorkPeriodGen2, ParseError>)
        ensures
            final(cursor).data() == old(cursor).data(),
            old(cursor).pos() <= final(cursor).pos(),
            final(cursor).pos() == EntryTypeDailyWorkPeriodGen2::parse_end(old(cursor).data(), old(cursor).pos()),
            res is Ok <==> EntryTypeDailyWorkPeriodGen2::parse_ok(old(cursor).data(), old(cursor).pos()),
            res matches Ok(v) ==> EntryTypeDailyWorkPeriodGen2::parsed_as(old(cursor).data(), old(cursor).pos(), v),
            res matches Err(e) ==> e == EntryTypeDailyWorkPeriodGen2::parse_err(old(cursor).data(), old(cursor).pos()),
    {
        let b = cursor.read_u8()?;
        match EntryTypeDailyWorkPeriodGen2::decode(b) {
            Some(v) => Ok(v),
            None => Err(ParseError::InvalidValue),
        }
    }
}

impl Parse for EntryTypeDailyWorkPeriodGen2 {
    open spec fn parse_ok(d: Seq<u8>, p: int) -> bool {
        bytes_ok(d, p, 1) && EntryTypeDailyWorkPeriodGen2::from_byte(d[p]) is Some
    }

    open spec fn parse_end(d: Seq<u8>, p: int) -> int {
        bytes_end(d, p, 1)
    }

    open spec fn parse_err(d: Seq<u8>, p: int) -> ParseError {
        if !bytes_ok(d, p, 1) {
            ParseError::UnexpectedEnd
        } else {
            ParseError::InvalidValue
        }
    }

    open spec fn parsed_as(d: Seq<u8>, p: int, v: EntryTypeDailyWorkPeriodGen2) -> bool {
        EntryTypeDailyWorkPeriodGen2::from_byte(d[p]) == Some(v)
    }

    fn parse(cursor: &mut Cursor) -> (res: Result<EntryTypeDailyWorkPeriodGen2, ParseError>) {
        EntryTypeDailyWorkPeriodGen2::parse(cursor)
    }
}

/// PlaceRecord (appendix 2.117) as generation 2 defines it: 21 bytes.
#[derive(Debug)]
pub struct PlaceRecordGen2 {
    pub entry_time: TimeReal,
    pub entry_type_daily_work_period: EntryTypeDailyWorkPeriodGen2,
    pub daily_work_period_country: NationNumeric,
    pub daily_work_period_region: RegionNumeric,
    pub vehicle_odometer_value: OdometerShort,
    pub entry_gnss_place_record: GNSSPlaceRecordGen2,
}

impl PlaceRecordGen2 {
    /// The number of bytes of a PlaceRecordGen2.
    pub const SIZE: usize = 21;

    /// The fields can be read from position `p` of `d`.
    pub open spec fn fields_ok(d: Seq<u8>, p: int) -> bool {
        let p1 = TimeReal::parse_end(d, p);
        let p2 = EntryTypeDailyWorkPeriodGen2::parse_end(d, p1);
        let p3 = NationNumeric::parse_end(d, p2);
        let p4 = RegionNumeric::parse_end(d, p3);
        let p5 = OdometerShort::parse_end(d, p4);
        TimeReal::parse_ok(d, p)
            && EntryTypeDailyWorkPeriodGen2::parse_ok(d, p1)
            && NationNumeric::parse_ok(d, p2)
            && RegionNumeric::parse_ok(d, p3)
            && OdometerShort::parse_ok(d, p4)
            && GNSSPlaceRecordGen2::parse_ok(d, p5)
    }

    /// The error of a read of the fields from position `p` of `d` that fails.
    pub open spec fn fields_err(d: Seq<u8>, p: int) -> ParseError {
        let p1 = TimeReal::parse_end(d, p);
        let p2 = EntryTypeDailyWorkPeriodGen2::parse_end(d, p1);
        let p3 = NationNumeric::parse_end(d, p2);
        let p4 = RegionNumeric::parse_end(d, p3);
        let p5 = OdometerShort::parse_end(d, p4);
        if !TimeReal::parse_ok(d, p) {
            TimeReal::parse_err(d, p)
        } else if !EntryTypeDailyWorkPeriodGen2::parse_ok(d, p1) {
            EntryTypeDailyWorkPeriodGen2::parse_err(d, p1)
        } else if !NationNumeric::parse_ok(d, p2) {
            NationNumeric::parse_err(d, p2)
        } else if !RegionNumeric::parse_ok(d, p3) {
            RegionNumeric::parse_err(d, p3)
        } else if !OdometerShort::parse_ok(d, p4) {
            OdometerShort::parse_err(d, p4)
        } else if !GNSSPlaceRecordGen2::parse_ok(d, p5) {
            GNSSPlaceRecordGen2::parse_err(d, p5)
        } else {
            ParseError::InvalidValue
        }
    }

    /// `v` holds the fields read from position `p` of `d`.
    pub open spec fn fields_as(d: Seq<u8>, p: int, v: PlaceRecordGen2) -> bool {
        let p1 = TimeReal::parse_end(d, p);
        let p2 = EntryTypeDailyWorkPeriodGen2::parse_end(d, p1);
        let p3 = NationNumeric::parse_end(d, p2);
        let p4 = RegionNumeric::parse_end(d, p3);
        let p5 = OdometerShort::parse_end(d, p4);
        TimeReal::parsed_as(d, p, v.entry_time)
            && EntryTypeDailyWorkPeriodGen2::parsed_as(d, p1, v.entry_type_daily_work_period)
            && NationNumeric::parsed_as(d, p2, v.daily_work_period_country)
            && RegionNumeric::parsed_as(d, p3, v.daily_work_period_region)
            && OdometerShort::parsed_as(d, p4, v.vehicle_odometer_value)
            && GNSSPlaceRecordGen2::parsed_as(d, p5, v.entry_gnss_place_record)
    }
}

impl PlaceRecordGen2 {
    /// Reads a `PlaceRecordGen2` at the reader's position.
    pub fn parse(cursor: &mut Cursor) -> (res: Result<PlaceRecordGen2, ParseError>)
        ensures
            final(cursor).data() == old(cursor).data(),
            old(cursor).pos() <= final(cursor).pos(),
            final(cursor).pos() == PlaceRecordGen2::parse_end(old(cursor).data(), old(cursor).pos()),
            res is Ok <==> PlaceRecordGen2::parse_ok(old(cursor).data(), old(cursor).pos()),
            res matches Ok(v) ==> PlaceRecordGen2::parsed_as(old(cursor).data(), old(cursor).pos(), v),
            res matches Err(e) ==> e == PlaceRecordGen2::parse_err(old(cursor).data(), old(cursor).pos()),
    {
        let mut inner = cursor.take_exact(21)?;
        let entry_time = TimeReal::parse(&mut inner)?;
        let entry_type_daily_work_period = EntryTypeDailyWorkPeriodGen2::parse(&mut inner)?;
        let daily_work_period_country = NationNumeric::parse(&mut inner)?;
        let daily_work_period_region = RegionNumeric::parse(&mut inner)?;
        let vehicle_odometer_value = OdometerShort::parse(&mut inner)?;
        let entry_gnss_place_record = GNSSPlaceRecordGen2::parse(&mut inner)?;
        Ok(PlaceRecordGen2 { entry_time, entry_type_daily_work_period, daily_work_period_country, daily_work_period_region, vehicle_odometer_value, entry_gnss_place_record })
    }
}

impl Parse for PlaceRecordGen2 {
    open spec fn parse_ok(d: Seq<u8>, p: int) -> bool {
        bytes_ok(d, p, 21) && PlaceRecordGen2::fields_ok(d.subrange(p, p + 21), 0)
    }

    open spec fn parse_end(d: Seq<u8>, p: int) -> int {
        bytes_end(d, p, 21)
    }

    open spec fn parsed_as(d: Seq<u8>, p: int, v: PlaceRecordGen2) -> bool {
        PlaceRecordGen2::fields_as(d.subrange(p, p + 21), 0, v)
    }

    open spec fn parse_err(d: Seq<u8>, p: int) -> ParseError {
        if !bytes_ok(d, p, 21) {
            ParseError::UnexpectedEnd
        } else {
            PlaceRecordGen2::fields_err(d.subrange(p, p + 21), 0)
        }
    }

    fn parse(cursor: &mut Cursor) -> (res: Result<PlaceRecordGen2, ParseError>) {
        PlaceRecordGen2::parse(cursor)
    }
}

impl Timed for PlaceRecordGen2 {
    open spec fn time_key(&self) -> int {
        self.entry_time.0 as int
    }

    fn time_of(&self) -> (r: u32) {
        self.entry_time.0
    }
}

/// SpecificConditionType (appendix 2.154) as generation 2 defines it.
#[derive(Debug, Clone, Copy, PartialEq, Eq, Structural)]
pub enum SpecificConditionTypeGen2 {
    RFU,
    OutOfScopeBegin,
    OutOfScopeEnd,
    FerryTrainCrossingBegin,
    FerryTrainCrossingEnd,
}

impl SpecificConditionTypeGen2 {
    /// The value that the byte `b` encodes, if any.
    pub open spec fn from_byte(b: u8) -> Option<SpecificConditionTypeGen2> {
        if b == 0x00 {
            Some(SpecificConditionTypeGen2::RFU)
        } else if b == 0x01 {
            Some(SpecificConditionTypeGen2::OutOfScopeBegin)
        } else if b == 0x02 {
            Some(SpecificConditionTypeGen2::OutOfScopeEnd)
        } else if b == 0x03 {
            Some(SpecificConditionTypeGen2::FerryTrainCrossingBegin)
        } else if b == 0x04 {
            Some(SpecificConditionTypeGen2::FerryTrainCrossingEnd)
        } else {
            Some(SpecificConditionTypeGen2::RFU)
        }
    }

    /// Decodes one byte.
    pub fn decode(b: u8) -> (r: Option<SpecificConditionTypeGen2>)
        ensures
            r == SpecificConditionTypeGen2::from_byte(b),
    {
        if b == 0x00 {
            Some(SpecificConditionTypeGen2::RFU)
        } else if b == 0x01 {
            Some(SpecificConditionTypeGen2::OutOfScopeBegin)
        } else if b == 0x02 {
            Some(SpecificConditionTypeGen2::OutOfScopeEnd)
        } else if b == 0x03 {
            Some(SpecificConditionTypeGen2::FerryTrainCrossingBegin)
        } else if b == 0x04 {
            Some(SpecificConditionTypeGen2::FerryTrainCrossingEnd)
        } else {
            Some(SpecificConditionTypeGen2::RFU)
        }
    }
}

impl SpecificConditionTypeGen2 {
    /// Reads a `SpecificConditionTypeGen2` at the reader's position.
    pub fn parse(cursor: &mut Cursor) -> (res: Result<SpecificConditionTypeGen2, ParseError>)
        ensures
            final(cursor).data() == old(cursor).data(),
            old(cursor).pos() <= final(cursor).pos(),
            final(cursor).pos() == SpecificConditionTypeGen2::parse_end(old(cursor).data(), old(cursor).pos()),
            res is Ok <==> SpecificConditionTypeGen2::parse_ok(old(cursor).data(), old(cursor).pos()),
            res matches Ok(v) ==> SpecificConditionTypeGen2::parsed_as(old(cursor).data(), old(cursor).pos(), v),
            res matches Err(e) ==> e == SpecificConditionTypeGen2::parse_err(old(cursor).data(), old(cursor).pos()),
    {
        let b = cursor.read_u8()?;
        match SpecificConditionTypeGen2::decode(b) {
            Some(v) => Ok(v),
            None => Err(ParseError::InvalidValue),
        }
    }
}

impl Parse for SpecificConditionTypeGen2 {
    open spec fn parse_ok(d: Seq<u8>, p: int) -> bool {
        bytes_ok(d, p, 1) && SpecificConditionTypeGen2::from_byte(d[p]) is Some
    }

    open spec fn parse_end(d: Seq<u8>, p: int) -> int {
        bytes_end(d, p, 1)
    }

    open spec fn parse_err(d: Seq<u8>, p: int) -> ParseError {
        if !bytes_ok(d, p, 1) {
            ParseError::UnexpectedEnd
        } else {
            ParseError::InvalidValue
        }
    }

    open spec fn parsed_as(d: Seq<u8>, p: int, v: SpecificConditionTypeGen2) -> bool {
        SpecificConditionTypeGen2::from_byte(d[p]) == Some(v)
    }

    fn parse(cursor: &mut Cursor) -> (res: Result<SpecificConditionTypeGen2, ParseError>) {
        SpecificConditionTypeGen2::parse(cursor)
    }
}

/// SpecificConditionRecord (appendix 2.152) as generation 2 defines it: five bytes.
#[derive(Debug)]
pub struct SpecificConditionRecordGen2 {
    pub entry_time: TimeReal,
    pub specific_condition_type: SpecificConditionTypeGen2,
}

impl SpecificConditionRecordGen2 {
    /// The number of bytes of a SpecificConditionRecordGen2.
    pub const SIZE: usize = 5;

    /// The fields can be read from position `p` of `d`.
    pub open spec fn fields_ok(d: Seq<u8>, p: int) -> bool {
        let p1 = TimeReal::parse_end(d, p);
        TimeReal::parse_ok(d, p)
            && SpecificConditionTypeGen2::parse_ok(d, p1)
    }

    /// The error of a read of the fields from position `p` of `d` that fails.
    pub open spec fn fields_err(d: Seq<u8>, p: int) -> ParseError {
        let p1 = TimeReal::parse_end(d, p);
        if !TimeReal::parse_ok(d, p) {
            TimeReal::parse_err(d, p)
        } else if !SpecificConditionTypeGen2::parse_ok(d, p1) {
            SpecificConditionTypeGen2::parse_err(d, p1)
        } else {
            ParseError::InvalidValue
        }
    }

    /// `v` holds the fields read from position `p` of `d`.
    pub open spec fn fields_as(d: Seq<u8>, p: int, v: SpecificConditionRecordGen2) -> bool {
        let p1 = TimeReal::parse_end(d, p);
        TimeReal::parsed_as(d, p, v.entry_time)
            && SpecificConditionTypeGen2::parsed_as(d, p1, v.specific_condition_type)
    }
}

impl SpecificConditionRecordGen2 {
    /// Reads a `SpecificConditionRecordGen2` at the reader's position.
    pub fn parse(cursor: &mut Cursor) -> (res: Result<SpecificConditionRecordGen2, ParseError>)
        ensures
            final(cursor).data() == old(cursor).data(),
            old(cursor).pos() <= final(cursor).pos(),
            final(cursor).pos() == SpecificConditionRecordGen2::parse_end(old(cursor).data(), old(cursor).pos()),
            res is Ok <==> SpecificConditionRecordGen2::parse_ok(old(cursor).data(), old(cursor).pos()),
            res matches Ok(v) ==> SpecificConditionRecordGen2::parsed_as(old(cursor).data(), old(cursor).pos(), v),
            res matches Err(e) ==> e == SpecificConditionRecordGen2::parse_err(old(cursor).data(), old(cursor).pos()),
    {
        let mut inner = cursor.take_exact(5)?;
        let entry_time = TimeReal::parse(&mut inner)?;
        let specific_condition_type = SpecificConditionTypeGen2::parse(&mut inner)?;
        Ok(SpecificConditionRecordGen2 { entry_time, specific_condition_type })
    }
}

impl Parse for SpecificConditionRecordGen2 {
    open spec fn parse_ok(d: Seq<u8>, p: int) -> bool {
        bytes_ok(d, p, 5) && SpecificConditionRecordGen2::fields_ok(d.subrange(p, p + 5), 0)
    }

    open spec fn parse_end(d: Seq<u8>, p: int) -> int {
        bytes_end(d, p, 5)
    }

    open spec fn parsed_as(d: Seq<u8>, p: int, v: SpecificConditionRecordGen2) -> bool {
        SpecificConditionRecordGen2::fields_as(d.subrange(p, p + 5), 0, v)
    }

    open spec fn parse_err(d: Seq<u8>, p: int) -> ParseError {
        if !bytes_ok(d, p, 5) {
            ParseError::UnexpectedEnd
        } else {
            SpecificConditionRecordGen2::fields_err(d.subrange(p, p + 5), 0)
        }
    }

    fn parse(cursor: &mut Cursor) -> (res: Result<SpecificConditionRecordGen2, ParseError>) {
        SpecificConditionRecordGen2::parse(cursor)
    }
}

impl Timed for SpecificConditionRecordGen2 {
    open spec fn time_key(&self) -> int {
        self.entry_time.0 as int
    }

    fn time_of(&self) -> (r: u32) {
        self.entry_time.0
    }
}

/// EventFaultType (appendix 2.70) as generation 2 defines it.
#[derive(Debug, Clone, Copy, PartialEq, Eq, Structural)]
pub enum EventFaultTypeGen2 {
    NoFurtherDetails,
    InsertionOfNonValidCard,
    CardConflict,
    TimeOverlap,
    DrivingWithoutAppropriateCard,
    CardInsertionWhileDriving,
    LastCardSessionNotCorrectlyClosed,
    OverSpeeding,
    PowerSupplyInterruption,
    MotionDataError,
    VehicleMotionConflict,
    TimeConflict,
    CommunicationErrorWithRemoteCommunicationFacility,
    AbsenceOfPositionInfoFromGNSSReceiver,
    CommunicationErrorWithExternalGNSSFacility,
    RFU,
    VUSecurityBreachAttemptNoFurtherDetails,
    MotionSensorAuthenticationFailure,
    TachographCardAuthenticationFailure,
    UnauthorizedChangeOfMotionSensor,
    CardDataInputIntegrityError,
    StoredUserDataIntegrityError,
    InternalDataTransferError,
    UnauthorizedCaseOpening,
    HardwareSabotage,
    TamperDetectionOfGNSS,
    ExternalGNSSFacilityAuthenticationFailure,
    ExternalGNSSFacilityCertificateExpired,
    SensorSecurityBreachAttemptNoFurtherDetails,
    SensorAuthenticationFailure,
    SensorStoredDataIntegrityError,
    SensorInternalDataTransferError,
    SensorUnauthorizedCaseOpening,
    SensorHardwareSabotage,
    ControlDeviceFaultNoFurtherDetails,
    VUInternalFault,
    PrinterFault,
    DisplayFault,
    DownloadingFault,
    SensorFault,
    InternalGNSSReceiver,
    ExternalGNSSFacility,
    RemoteCommunicationFacility,
    ITSInterface,
    CardFaultNoFurtherDetails,
    ManufacturerSpecific,
}

impl EventFaultTypeGen2 {
    /// The value that the byte `b` encodes, if any.
    pub open spec fn from_byte(b: u8) -> Option<EventFaultTypeGen2> {
        if b == 0x00 {
            Some(EventFaultTypeGen2::NoFurtherDetails)
        } else if b == 0x01 {
            Some(EventFaultTypeGen2::InsertionOfNonValidCard)
        } else if b == 0x02 {
            Some(EventFaultTypeGen2::CardConflict)
        } else if b == 0x03 {
            Some(EventFaultTypeGen2::TimeOverlap)
        } else if b == 0x04 {
            Some(EventFaultTypeGen2::DrivingWithoutAppropriateCard)
        } else if b == 0x05 {
            Some(EventFaultTypeGen2::CardInsertionWhileDriving)
        } else if b == 0x06 {
            Some(EventFaultTypeGen2::LastCardSessionNotCorrectlyClosed)
        } else if b == 0x07 {
            Some(EventFaultTypeGen2::OverSpeeding)
        } else if b == 0x08 {
            Some(EventFaultTypeGen2::PowerSupplyInterruption)
        } else if b == 0x09 {
            Some(EventFaultTypeGen2::MotionDataError)
        } else if b == 0x0A {
            Some(EventFaultTypeGen2::VehicleMotionConflict)
        } else if b == 0x0B {
            Some(EventFaultTypeGen2::TimeConflict)
        } else if b == 0x0C {
            Some(EventFaultTypeGen2::CommunicationErrorWithRemoteCommunicationFacility)
        } else if b == 0x0D {
            Some(EventFaultTypeGen2::AbsenceOfPositionInfoFromGNSSReceiver)
        } else if b == 0x0E {
            Some(EventFaultTypeGen2::CommunicationErrorWithExternalGNSSFacility)
        } else if b == 0x0F {
            Some(EventFaultTypeGen2::RFU)
        } else if b == 0x10 {
            Some(EventFaultTypeGen2::VUSecurityBreachAttemptNoFurtherDetails)
        } else if b == 0x11 {
            Some(EventFaultTypeGen2::MotionSensorAuthenticationFailure)
        } else if b == 0x12 {
            Some(EventFaultTypeGen2::TachographCardAuthenticationFailure)
        } else if b == 0x13 {
            Some(EventFaultTypeGen2::UnauthorizedChangeOfMotionSensor)
        } else if b == 0x14 {
            Some(EventFaultTypeGen2::CardDataInputIntegrityError)
        } else if b == 0x15 {
            Some(EventFaultTypeGen2::StoredUserDataIntegrityError)
        } else if b == 0x16 {
            Some(EventFaultTypeGen2::InternalDataTransferError)
        } else if b == 0x17 {
            Some(EventFaultTypeGen2::UnauthorizedCaseOpening)
        } else if b == 0x18 {
            Some(EventFaultTypeGen2::HardwareSabotage)
        } else if b == 0x19 {
            Some(EventFaultTypeGen2::TamperDetectionOfGNSS)
        } else if b == 0x1A {
            Some(EventFaultTypeGen2::ExternalGNSSFacilityAuthenticationFailure)
        } else if b == 0x1B {
            Some(EventFaultTypeGen2::ExternalGNSSFacilityCertificateExpired)
        } else if 0x1C <= b && b <= 0x1F {
            Some(EventFaultTypeGen2::RFU)
        } else if b == 0x20 {
            Some(EventFaultTypeGen2::SensorSecurityBreachAttemptNoFurtherDetails)
        } else if b == 0x21 {
            Some(EventFaultTypeGen2::SensorAuthenticationFailure)
        } else if b == 0x22 {
            Some(EventFaultTypeGen2::SensorStoredDataIntegrityError)
        } else if b == 0x23 {
            Some(EventFaultTypeGen2::SensorInternalDataTransferError)
        } else if b == 0x24 {
            Some(EventFaultTypeGen2::SensorUnauthorizedCaseOpening)
        } else if b == 0x25 {
            Some(EventFaultTypeGen2::SensorHardwareSabotage)
        } else if 0x26 <= b && b <= 0x2F {
            Some(EventFaultTypeGen2::RFU)
        } else if b == 0x30 {
            Some(EventFaultTypeGen2::ControlDeviceFaultNoFurtherDetails)
        } else if b == 0x31 {
            Some(EventFaultTypeGen2::VUInternalFault)
        } else if b == 0x32 {
            Some(EventFaultTypeGen2::PrinterFault)
        } else if b == 0x33 {
            Some(EventFaultTypeGen2::DisplayFault)
        } else if b == 0x34 {
            Some(EventFaultTypeGen2::DownloadingFault)
        } else if b == 0x35 {
            Some(EventFaultTypeGen2::SensorFault)
        } else if b == 0x36 {
            Some(EventFaultTypeGen2::InternalGNSSReceiver)
        } else if b == 0x37 {
            Some(EventFaultTypeGen2::ExternalGNSSFacility)
        } else if b == 0x38 {
            Some(EventFaultTypeGen2::RemoteCommunicationFacility)
        } else if b == 0x39 {
            Some(EventFaultTypeGen2::ITSInterface)
        } else if 0x3A <= b && b <= 0x3F {
            Some(EventFaultTypeGen2::RFU)
        } else if b == 0x40 {
            Some(EventFaultTypeGen2::CardFaultNoFurtherDetails)
        } else if 0x41 <= b && b <= 0x4F {
            Some(EventFaultTypeGen2::RFU)
        } else if 0x50 <= b && b <= 0x7F {
            Some(EventFaultTypeGen2::RFU)
        } else {
            Some(EventFaultTypeGen2::ManufacturerSpecific)
        }
    }

    /// Decodes one byte.
    pub fn decode(b: u8) -> (r: Option<EventFaultTypeGen2>)
        ensures
            r == EventFaultTypeGen2::from_byte(b),
    {
        if b == 0x00 {
            Some(EventFaultTypeGen2::NoFurtherDetails)
        } else if b == 0x01 {
            Some(EventFaultTypeGen2::InsertionOfNonValidCard)
        } else if b == 0x02 {
            Some(EventFaultTypeGen2::CardConflict)
        } else if b == 0x03 {
            Some(EventFaultTypeGen2::TimeOverlap)
        } else if b == 0x04 {
            Some(EventFaultTypeGen2::DrivingWithoutAppropriateCard)
        } else if b == 0x05 {
            Some(EventFaultTypeGen2::CardInsertionWhileDriving)
        } else if b == 0x06 {
            Some(EventFaultTypeGen2::LastCardSessionNotCorrectlyClosed)
        } else if b == 0x07 {
            Some(EventFaultTypeGen2::OverSpeeding)
        } else if b == 0x08 {
            Some(EventFaultTypeGen2::PowerSupplyInterruption)
        } else if b == 0x09 {
            Some(EventFaultTypeGen2::MotionDataError)
        } else if b == 0x0A {
            Some(EventFaultTypeGen2::VehicleMotionConflict)
        } else if b == 0x0B {
            Some(EventFaultTypeGen2::TimeConflict)
        } else if b == 0x0C {
            Some(EventFaultTypeGen2::CommunicationErrorWithRemoteCommunicationFacility)
        } else if b == 0x0D {
            Some(EventFaultTypeGen2::AbsenceOfPositionInfoFromGNSSReceiver)
        } else if b == 0x0E {
            Some(EventFaultTypeGen2::CommunicationErrorWithExternalGNSSFacility)
        } else if b == 0x0F {
            Some(EventFaultTypeGen2::RFU)
        } else if b == 0x10 {
            Some(EventFaultTypeGen2::VUSecurityBreachAttemptNoFurtherDetails)
        } else if b == 0x11 {
            Some(EventFaultTypeGen2::MotionSensorAuthenticationFailure)
        } else if b == 0x12 {
            Some(EventFaultTypeGen2::TachographCardAuthenticationFailure)
        } else if b == 0x13 {
            Some(EventFaultTypeGen2::UnauthorizedChangeOfMotionSensor)
        } else if b == 0x14 {
            Some(EventFaultTypeGen2::CardDataInputIntegrityError)
        } else if b == 0x15 {
            Some(EventFaultTypeGen2::StoredUserDataIntegrityError)
        } else if b == 0x16 {
            Some(EventFaultTypeGen2::InternalDataTransferError)
        } else if b == 0x17 {
            Some(EventFaultTypeGen2::UnauthorizedCaseOpening)
        } else if b == 0x18 {
            Some(EventFaultTypeGen2::HardwareSabotage)
        } else if b == 0x19 {
            Some(EventFaultTypeGen2::TamperDetectionOfGNSS)
        } else if b == 0x1A {
            Some(EventFaultTypeGen2::ExternalGNSSFacilityAuthenticationFailure)
        } else if b == 0x1B {
            Some(EventFaultTypeGen2::ExternalGNSSFacilityCertificateExpired)
        } else if 0x1C <= b && b <= 0x1F {
            Some(EventFaultTypeGen2::RFU)
        } else if b == 0x20 {
            Some(EventFaultTypeGen2::SensorSecurityBreachAttemptNoFurtherDetails)
        } else if b == 0x21 {
            Some(EventFaultTypeGen2::SensorAuthenticationFailure)
        } else if b == 0x22 {
            Some(EventFaultTypeGen2::SensorStoredDataIntegrityError)
        } else if b == 0x23 {
            Some(EventFaultTypeGen2::SensorInternalDataTransferError)
        } else if b == 0x24 {
            Some(EventFaultTypeGen2::SensorUnauthorizedCaseOpening)
        } else if b == 0x25 {
            Some(EventFaultTypeGen2::SensorHardwareSabotage)
        } else if 0x26 <= b && b <= 0x2F {
            Some(EventFaultTypeGen2::RFU)
        } else if b == 0x30 {
            Some(EventFaultTypeGen2::ControlDeviceFaultNoFurtherDetails)
        } else if b == 0x31 {
            Some(EventFaultTypeGen2::VUInternalFault)
        } else if b == 0x32 {
            Some(EventFaultTypeGen2::PrinterFault)
        } else if b == 0x33 {
            Some(EventFaultTypeGen2::DisplayFault)
        } else if b == 0x34 {
            Some(EventFaultTypeGen2::DownloadingFault)
        } else if b == 0x35 {
            Some(EventFaultTypeGen2::SensorFault)
        } else if b == 0x36 {
            Some(EventFaultTypeGen2::InternalGNSSReceiver)
        } else if b == 0x37 {
            Some(EventFaultTypeGen2::ExternalGNSSFacility)
        } else if b == 0x38 {
            Some(EventFaultTypeGen2::RemoteCommunicationFacility)
        } else if b == 0x39 {
            Some(EventFaultTypeGen2::ITSInterface)
        } else if 0x3A <= b && b <= 0x3F {
            Some(EventFaultTypeGen2::RFU)
        } else if b == 0x40 {
            Some(EventFaultTypeGen2::CardFaultNoFurtherDetails)
        } else if 0x41 <= b && b <= 0x4F {
            Some(EventFaultTypeGen2::RFU)
        } else if 0x50 <= b && b <= 0x7F {
            Some(EventFaultTypeGen2::RFU)
        } else {
            Some(EventFaultTypeGen2::ManufacturerSpecific)
        }
    }
}

impl EventFaultTypeGen2 {
    /// Reads a `EventFaultTypeGen2` at the reader's position.
    pub fn parse(cursor: &mut Cursor) -> (res: Result<EventFaultTypeGen2, ParseError>)
        ensures
            final(cursor).data() == old(cursor).data(),
            old(cursor).pos() <= final(cursor).pos(),
            final(cursor).pos() == EventFaultTypeGen2::parse_end(old(cursor).data(), old(cursor).pos()),
            res is Ok <==> EventFaultTypeGen2::parse_ok(old(cursor).data(), old(cursor).pos()),
            res matches Ok(v) ==> EventFaultTypeGen2::parsed_as(old(cursor).data(), old(cursor).pos(), v),
            res matches Err(e) ==> e == EventFaultTypeGen2::parse_err(old(cursor).data(), old(cursor).pos()),
    {
        let b = cursor.read_u8()?;
        match EventFaultTypeGen2::decode(b) {
            Some(v) => Ok(v),
            None => Err(ParseError::InvalidValue),
        }
    }
}

impl Parse for EventFaultTypeGen2 {
    open spec fn parse_ok(d: Seq<u8>, p: int) -> bool {
        bytes_ok(d, p, 1) && EventFaultTypeGen2::from_byte(d[p]) is Some
    }

    open spec fn parse_end(d: Seq<u8>, p: int) -> int {
        bytes_end(d, p, 1)
    }

    open spec fn parse_err(d: Seq<u8>, p: int) -> ParseError {
        if !bytes_ok(d, p, 1) {
            ParseError::UnexpectedEnd
        } else {
            ParseError::InvalidValue
        }
    }

    open spec fn parsed_as(d: Seq<u8>, p: int, v: EventFaultTypeGen2) -> bool {
        EventFaultTypeGen2::from_byte(d[p]) == Some(v)
    }

    fn parse(cursor: &mut Cursor) -> (res: Result<EventFaultTypeGen2, ParseError>) {
        EventFaultTypeGen2::parse(cursor)
    }
}

/// ExtendedSerialNumber (appendix 2.72) as generation 2 defines it.
#[derive(Debug)]
pub struct ExtendedSerialNumberGen2 {
    pub serial_number: u32,
    pub month_year: MonthYear,
    pub equipment_type: EquipmentTypeGen2,
    pub manufacturer_code: ManufacturerCode,
}

impl ExtendedSerialNumberGen2 {
    /// Reads a `ExtendedSerialNumberGen2` at the reader's position.
    pub fn parse(cursor: &mut Cursor) -> (res: Result<ExtendedSerialNumberGen2, ParseError>)
        ensures
            final(cursor).data() == old(cursor).data(),
            old(cursor).pos() <= final(cursor).pos(),
            final(cursor).pos() == ExtendedSerialNumberGen2::parse_end(old(cursor).data(), old(cursor).pos()),
            res is Ok <==> ExtendedSerialNumberGen2::parse_ok(old(cursor).data(), old(cursor).pos()),
            res matches Ok(v) ==> ExtendedSerialNumberGen2::parsed_as(old(cursor).data(), old(cursor).pos(), v),
            res matches Err(e) ==> e == ExtendedSerialNumberGen2::parse_err(old(cursor).data(), old(cursor).pos()),
    {
        let serial_number = u32::parse(cursor)?;
        let month_year = MonthYear::parse(cursor)?;
        let equipment_type = EquipmentTypeGen2::parse(cursor)?;
        let manufacturer_code = ManufacturerCode::parse(cursor)?;
        Ok(ExtendedSerialNumberGen2 { serial_number, month_year, equipment_type, manufacturer_code })
    }
}

impl Parse for ExtendedSerialNumberGen2 {
    open spec fn parse_ok(d: Seq<u8>, p: int) -> bool {
        let p1 = u32::parse_end(d, p);
        let p2 = MonthYear::parse_end(d, p1);
        let p3 = EquipmentTypeGen2::parse_end(d, p2);
        u32::parse_ok(d, p)
            && MonthYear::parse_ok(d, p1)
            && EquipmentTypeGen2::parse_ok(d, p2)
            && ManufacturerCode::parse_ok(d, p3)
    }

    open spec fn parse_end(d: Seq<u8>, p: int) -> int {
        let p1 = u32::parse_end(d, p);
        let p2 = MonthYear::parse_end(d, p1);
        let p3 = EquipmentTypeGen2::parse_end(d, p2);
        let p4 = ManufacturerCode::parse_end(d, p3);
        if !u32::parse_ok(d, p) {
            p1
        } else if !MonthYear::parse_ok(d, p1) {
            p2
        } else if !EquipmentTypeGen2::parse_ok(d, p2) {
            p3
        } else if !ManufacturerCode::parse_ok(d, p3) {
            p4
        } else {
            p4
        }
    }

    open spec fn parsed_as(d: Seq<u8>, p: int, v: ExtendedSerialNumberGen2) -> bool {
        let p1 = u32::parse_end(d, p);
        let p2 = MonthYear::parse_end(d, p1);
        let p3 = EquipmentTypeGen2::parse_end(d, p2);
        u32::parsed_as(d, p, v.serial_number)
            && MonthYear::parsed_as(d, p1, v.month_year)
            && EquipmentTypeGen2::parsed_as(d, p2, v.equipment_type)
            && ManufacturerCode::parsed_as(d, p3, v.manufacturer_code)
    }

    open spec fn parse_err(d: Seq<u8>, p: int) -> ParseError {
        let p1 = u32::parse_end(d, p);
        let p2 = MonthYear::parse_end(d, p1);
        let p3 = EquipmentTypeGen2::parse_end(d, p2);
        if !u32::parse_ok(d, p) {
            u32::parse_err(d, p)
        } else if !MonthYear::parse_ok(d, p1) {
            MonthYear::parse_err(d, p1)
        } else if !EquipmentTypeGen2::parse_ok(d, p2) {
            EquipmentTypeGen2::parse_err(d, p2)
        } else if !ManufacturerCode::parse_ok(d, p3) {
            ManufacturerCode::parse_err(d, p3)
        } else {
            ParseError::InvalidValue
        }
    }

    fn parse(cursor: &mut Cursor) -> (res: Result<ExtendedSerialNumberGen2, ParseError>) {
        ExtendedSerialNumberGen2::parse(cursor)
    }
}

/// VuSerialNumber (appendix 2.223).
pub type VuSerialNumberGen2 = ExtendedSerialNumberGen2;

/// SensorSerialNumber (appendix 2.148).
pub type SensorSerialNumberGen2 = ExtendedSerialNumberGen2;

/// SensorGNSSSerialNumber (appendix 2.139).
pub type SensorGNSSSerialNumber = ExtendedSerialNumberGen2;

/// SensorGNSSCouplingDate (appendix 2.138).
pub type SensorGNSSCouplingDate = TimeReal;

/// VuApprovalNumber (appendix 2.172) as generation 2 defines it: sixteen characters.
#[derive(Debug)]
pub struct VuApprovalNumberGen2 {
    pub value: IA5String,
}

impl VuApprovalNumberGen2 {
    /// Reads a `VuApprovalNumberGen2` at the reader's position.
    pub fn parse(cursor: &mut Cursor) -> (res: Result<VuApprovalNumberGen2, ParseError>)
        ensures
            final(cursor).data() == old(cursor).data(),
            old(cursor).pos() <= final(cursor).pos(),
            final(cursor).pos() == VuApprovalNumberGen2::parse_end(old(cursor).data(), old(cursor).pos()),
            res is Ok <==> VuApprovalNumberGen2::parse_ok(old(cursor).data(), old(cursor).pos()),
            res matches Ok(v) ==> VuApprovalNumberGen2::parsed_as(old(cursor).data(), old(cursor).pos(), v),
            res matches Err(e) ==> e == VuApprovalNumberGen2::parse_err(old(cursor).data(), old(cursor).pos()),
    {
        let value = IA5String::parse_dyn_size(cursor, 16)?;
        Ok(VuApprovalNumberGen2 { value })
    }
}

impl Parse for VuApprovalNumberGen2 {
    open spec fn parse_ok(d: Seq<u8>, p: int) -> bool {
        IA5String::dyn_ok(d, p, 16)
    }

    open spec fn parse_end(d: Seq<u8>, p: int) -> int {
        let p1 = IA5String::dyn_end(d, p, 16);
        if !IA5String::dyn_ok(d, p, 16) {
            p1
        } else {
            p1
        }
    }

    open spec fn parsed_as(d: Seq<u8>, p: int, v: VuApprovalNumberGen2) -> bool {
        IA5String::dyn_as(d, p, 16, v.value)
    }

    open spec fn parse_err(d: Seq<u8>, p: int) -> ParseError {
        if !IA5String::dyn_ok(d, p, 16) {
            IA5String::dyn_err(d, p, 16)
        } else {
            ParseError::InvalidValue
        }
    }

    fn parse(cursor: &mut Cursor) -> (res: Result<VuApprovalNumberGen2, ParseError>) {
        VuApprovalNumberGen2::parse(cursor)
    }
}

/// SensorApprovalNumber (appendix 2.131) as generation 2 defines it: sixteen characters.
#[derive(Debug)]
pub struct SensorApprovalNumberGen2 {
    pub value: IA5String,
}

impl SensorApprovalNumberGen2 {
    /// Reads a `SensorApprovalNumberGen2` at the reader's position.
    pub fn parse(cursor: &mut Cursor) -> (res: Result<SensorApprovalNumberGen2, ParseError>)
        ensures
            final(cursor).data() == old(cursor).data(),
            old(cursor).pos() <= final(cursor).pos(),
            final(cursor).pos() == SensorApprovalNumberGen2::parse_end(old(cursor).data(), old(cursor).pos()),
            res is Ok <==> SensorApprovalNumberGen2::parse_ok(old(cursor).data(), old(cursor).pos()),
            res matches Ok(v) ==> SensorApprovalNumberGen2::parsed_as(old(cursor).data(), old(cursor).pos(), v),
            res matches Err(e) ==> e == SensorApprovalNumberGen2::parse_err(old(cursor).data(), old(cursor).pos()),
    {
        let value = IA5String::parse_dyn_size(cursor, 16)?;
        Ok(SensorApprovalNumberGen2 { value })
    }
}

impl Parse for SensorApprovalNumberGen2 {
    open spec fn parse_ok(d: Seq<u8>, p: int) -> bool {
        IA5String::dyn_ok(d, p, 16)
    }

    open spec fn parse_end(d: Seq<u8>, p: int) -> int {
        let p1 = IA5String::dyn_end(d, p, 16);
        if !IA5String::dyn_ok(d, p, 16) {
            p1
        } else {
            p1
        }
    }

    open spec fn parsed_as(d: Seq<u8>, p: int, v: SensorApprovalNumberGen2) -> bool {
        IA5String::dyn_as(d, p, 16, v.value)
    }

    open spec fn parse_err(d: Seq<u8>, p: int) -> ParseError {
        if !IA5String::dyn_ok(d, p, 16) {
            IA5String::dyn_err(d, p, 16)
        } else {
            ParseError::InvalidValue
        }
    }

    fn parse(cursor: &mut Cursor) -> (res: Result<SensorApprovalNumberGen2, ParseError>) {
        SensorApprovalNumberGen2::parse(cursor)
    }
}

/// SensorExternalGNSSApprovalNumber (appendix 2.132): sixteen characters.
#[derive(Debug)]
pub struct SensorExternalGNSSApprovalNumberGen2 {
    pub value: IA5String,
}

impl SensorExternalGNSSApprovalNumberGen2 {
    /// Reads a `SensorExternalGNSSApprovalNumberGen2` at the reader's position.
    pub fn parse(cursor: &mut Cursor) -> (res: Result<SensorExternalGNSSApprovalNumberGen2, ParseError>)
        ensures
            final(cursor).data() == old(cursor).data(),
            old(cursor).pos() <= final(cursor).pos(),
            final(cursor).pos() == SensorExternalGNSSApprovalNumberGen2::parse_end(old(cursor).data(), old(cursor).pos()),
            res is Ok <==> SensorExternalGNSSApprovalNumberGen2::parse_ok(old(cursor).data(), old(cursor).pos()),
            res matches Ok(v) ==> SensorExternalGNSSApprovalNumberGen2::parsed_as(old(cursor).data(), old(cursor).pos(), v),
            res matches Err(e) ==> e == SensorExternalGNSSApprovalNumberGen2::parse_err(old(cursor).data(), old(cursor).pos()),
    {
        let value = IA5String::parse_dyn_size(cursor, 16)?;
        Ok(SensorExternalGNSSApprovalNumberGen2 { value })
    }
}

impl Parse for SensorExternalGNSSApprovalNumberGen2 {
    open spec fn parse_ok(d: Seq<u8>, p: int) -> bool {
        IA5String::dyn_ok(d, p, 16)
    }

    open spec fn parse_end(d: Seq<u8>, p: int) -> int {
        let p1 = IA5String::dyn_end(d, p, 16);
        if !IA5String::dyn_ok(d, p, 16) {
            p1
        } else {
            p1
        }
    }

    open spec fn parsed_as(d: Seq<u8>, p: int, v: SensorExternalGNSSApprovalNumberGen2) -> bool {
        IA5String::dyn_as(d, p, 16, v.value)
    }

    open spec fn parse_err(d: Seq<u8>, p: int) -> ParseError {
        if !IA5String::dyn_ok(d, p, 16) {
            IA5String::dyn_err(d, p, 16)
        } else {
            ParseError::InvalidValue
        }
    }

    fn parse(cursor: &mut Cursor) -> (res: Result<SensorExternalGNSSApprovalNumberGen2, ParseError>) {
        SensorExternalGNSSApprovalNumberGen2::parse(cursor)
    }
}

/// CalibrationPurpose (appendix 2.8) as generation 2 defines it.
#[derive(Debug, Clone, Copy, PartialEq, Eq, Structural)]
pub enum CalibrationPurposeGen2 {
    Reserved,
    Activation,
    FirstInstallation,
    Installation,
    PeriodicInspection,
    EntryOfVRNByCompany,
    TimeAdjustmentWithoutCalibration,
    RFU,
    ManufacturerSpecific,
}

impl CalibrationPurposeGen2 {
    /// The value that the byte `b` encodes, if any.
    pub open spec fn from_byte(b: u8) -> Option<CalibrationPurposeGen2> {
        if b == 0x00 {
            Some(CalibrationPurposeGen2::Reserved)
        } else if b == 0x01 {
            Some(CalibrationPurposeGen2::Activation)
        } else if b == 0x02 {
            Some(CalibrationPurposeGen2::FirstInstallation)
        } else if b == 0x03 {
            Some(CalibrationPurposeGen2::Installation)
        } else if b == 0x04 {
            Some(CalibrationPurposeGen2::PeriodicInspection)
        } else if b == 0x05 {
            Some(CalibrationPurposeGen2::EntryOfVRNByCompany)
        } else if b == 0x06 {
            Some(CalibrationPurposeGen2::TimeAdjustmentWithoutCalibration)
        } else if 0x07 <= b && b <= 0x7F {
            Some(CalibrationPurposeGen2::RFU)
        } else {
            Some(CalibrationPurposeGen2::ManufacturerSpecific)
        }
    }

    /// Decodes one byte.
    pub fn decode(b: u8) -> (r: Option<CalibrationPurposeGen2>)
        ensures
            r == CalibrationPurposeGen2::from_byte(b),
    {
        if b == 0x00 {
            Some(CalibrationPurposeGen2::Reserved)
        } else if b == 0x01 {
            Some(CalibrationPurposeGen2::Activation)
        } else if b == 0x02 {
            Some(CalibrationPurposeGen2::FirstInstallation)
        } else if b == 0x03 {
            Some(CalibrationPurposeGen2::Installation)
        } else if b == 0x04 {
            Some(CalibrationPurposeGen2::PeriodicInspection)
        } else if b == 0x05 {
            Some(CalibrationPurposeGen2::EntryOfVRNByCompany)
        } else if b == 0x06 {
            Some(CalibrationPurposeGen2::TimeAdjustmentWithoutCalibration)
        } else if 0x07 <= b && b <= 0x7F {
            Some(CalibrationPurposeGen2::RFU)
        } else {
            Some(CalibrationPurposeGen2::ManufacturerSpecific)
        }
    }
}

impl CalibrationPurposeGen2 {
    /// Reads a `CalibrationPurposeGen2` at the reader's position.
    pub fn parse(cursor: &mut Cursor) -> (res: Result<CalibrationPurposeGen2, ParseError>)
        ensures
            final(cursor).data() == old(cursor).data(),
            old(cursor).pos() <= final(cursor).pos(),
            final(cursor).pos() == CalibrationPurposeGen2::parse_end(old(cursor).data(), old(cursor).pos()),
            res is Ok <==> CalibrationPurposeGen2::parse_ok(old(cursor).data(), old(cursor).pos()),
            res matches Ok(v) ==> CalibrationPurposeGen2::parsed_as(old(cursor).data(), old(cursor).pos(), v),
            res matches Err(e) ==> e == CalibrationPurposeGen2::parse_err(old(cursor).data(), old(cursor).pos()),
    {
        let b = cursor.read_u8()?;
        match CalibrationPurposeGen2::decode(b) {
            Some(v) => Ok(v),
            None => Err(ParseError::InvalidValue),
        }
    }
}

impl Parse for CalibrationPurposeGen2 {
    open spec fn parse_ok(d: Seq<u8>, p: int) -> bool {
        bytes_ok(d, p, 1) && CalibrationPurposeGen2::from_byte(d[p]) is Some
    }

    open spec fn parse_end(d: Seq<u8>, p: int) -> int {
        bytes_end(d, p, 1)
    }

    open spec fn parse_err(d: Seq<u8>, p: int) -> ParseError {
        if !bytes_ok(d, p, 1) {
            ParseError::UnexpectedEnd
        } else {
            ParseError::InvalidValue
        }
    }

    open spec fn parsed_as(d: Seq<u8>, p: int, v: CalibrationPurposeGen2) -> bool {
        CalibrationPurposeGen2::from_byte(d[p]) == Some(v)
    }

    fn parse(cursor: &mut Cursor) -> (res: Result<CalibrationPurposeGen2, ParseError>) {
        CalibrationPurposeGen2::parse(cursor)
    }
}

/// ExtendedSealIdentifier (appendix 2.71).
#[derive(Debug)]
pub struct ExtendedSealIdentifierGen2 {
    pub manufacturer_code: Vec<u8>,
    pub seal_identifier: Vec<u8>,
}

impl ExtendedSealIdentifierGen2 {
    /// Reads a `ExtendedSealIdentifierGen2` at the reader's position.
    pub fn parse(cursor: &mut Cursor) -> (res: Result<ExtendedSealIdentifierGen2, ParseError>)
        ensures
            final(cursor).data() == old(cursor).data(),
            old(cursor).pos() <= final(cursor).pos(),
            final(cursor).pos() == ExtendedSealIdentifierGen2::parse_end(old(cursor).data(), old(cursor).pos()),
            res is Ok <==> ExtendedSealIdentifierGen2::parse_ok(old(cursor).data(), old(cursor).pos()),
            res matches Ok(v) ==> ExtendedSealIdentifierGen2::parsed_as(old(cursor).data(), old(cursor).pos(), v),
            res matches Err(e) ==> e == ExtendedSealIdentifierGen2::parse_err(old(cursor).data(), old(cursor).pos()),
    {
        let manufacturer_code = cursor.read_bytes(2)?;
        let seal_identifier = cursor.read_bytes(8)?;
        Ok(ExtendedSealIdentifierGen2 { manufacturer_code, seal_identifier })
    }
}

impl Parse for ExtendedSealIdentifierGen2 {
    open spec fn parse_ok(d: Seq<u8>, p: int) -> bool {
        let p1 = bytes_end(d, p, 2);
        bytes_ok(d, p, 2)
            && bytes_ok(d, p1, 8)
    }

    open spec fn parse_end(d: Seq<u8>, p: int) -> int {
        let p1 = bytes_end(d, p, 2);
        let p2 = bytes_end(d, p1, 8);
        if !bytes_ok(d, p, 2) {
            p1
        } else if !bytes_ok(d, p1, 8) {
            p2
        } else {
            p2
        }
    }

    open spec fn parsed_as(d: Seq<u8>, p: int, v: ExtendedSealIdentifierGen2) -> bool {
        let p1 = bytes_end(d, p, 2);
        v.manufacturer_code@ == d.subrange(p, p + 2)
            && v.seal_identifier@ == d.subrange(p1, p1 + 8)
    }

    open spec fn parse_err(d: Seq<u8>, p: int) -> ParseError {
        let p1 = bytes_end(d, p, 2);
        if !bytes_ok(d, p, 2) {
            ParseError::UnexpectedEnd
        } else if !bytes_ok(d, p1, 8) {
            ParseError::UnexpectedEnd
        } else {
            ParseError::InvalidValue
        }
    }

    fn parse(cursor: &mut Cursor) -> (res: Result<ExtendedSealIdentifierGen2, ParseError>) {
        ExtendedSealIdentifierGen2::parse(cursor)
    }
}

/// SealRecord (appendix 2.130).
#[derive(Debug)]
pub struct SealRecordGen2 {
    pub equipment_type: EquipmentTypeGen2,
    pub extended_seal_identifier: ExtendedSealIdentifierGen2,
}

impl SealRecordGen2 {
    /// Reads a `SealRecordGen2` at the reader's position.
    pub fn parse(cursor: &mut Cursor) -> (res: Result<SealRecordGen2, ParseError>)
        ensures
            final(cursor).data() == old(cursor).data(),
            old(cursor).pos() <= final(cursor).pos(),
            final(cursor).pos() == SealRecordGen2::parse_end(old(cursor).data(), old(cursor).pos()),
            res is Ok <==> SealRecordGen2::parse_ok(old(cursor).data(), old(cursor).pos()),
            res matches Ok(v) ==> SealRecordGen2::parsed_as(old(cursor).data(), old(cursor).pos(), v),
            res matches Err(e) ==> e == SealRecordGen2::parse_err(old(cursor).data(), old(cursor).pos()),
    {
        let equipment_type = EquipmentTypeGen2::parse(cursor)?;
        let extended_seal_identifier = ExtendedSealIdentifierGen2::parse(cursor)?;
        Ok(SealRecordGen2 { equipment_type, extended_seal_identifier })
    }
}

impl Parse for SealRecordGen2 {
    open spec fn parse_ok(d: Seq<u8>, p: int) -> bool {
        let p1 = EquipmentTypeGen2::parse_end(d, p);
        EquipmentTypeGen2::parse_ok(d, p)
            && ExtendedSealIdentifierGen2::parse_ok(d, p1)
    }

    open spec fn parse_end(d: Seq<u8>, p: int) -> int {
        let p1 = EquipmentTypeGen2::parse_end(d, p);
        let p2 = ExtendedSealIdentifierGen2::parse_end(d, p1);
        if !EquipmentTypeGen2::parse_ok(d, p) {
            p1
        } else if !ExtendedSealIdentifierGen2::parse_ok(d, p1) {
            p2
        } else {
            p2
        }
    }

    open spec fn parsed_as(d: Seq<u8>, p: int, v: SealRecordGen2) -> bool {
        let p1 = EquipmentTypeGen2::parse_end(d, p);
        EquipmentTypeGen2::parsed_as(d, p, v.equipment_type)
            && ExtendedSealIdentifierGen2::parsed_as(d, p1, v.extended_seal_identifier)
    }

    open spec fn parse_err(d: Seq<u8>, p: int) -> ParseError {
        let p1 = EquipmentTypeGen2::parse_end(d, p);
        if !EquipmentTypeGen2::parse_ok(d, p) {
            EquipmentTypeGen2::parse_err(d, p)
        } else if !ExtendedSealIdentifierGen2::parse_ok(d, p1) {
            ExtendedSealIdentifierGen2::parse_err(d, p1)
        } else {
            ParseError::InvalidValue
        }
    }

    fn parse(cursor: &mut Cursor) -> (res: Result<SealRecordGen2, ParseError>) {
        SealRecordGen2::parse(cursor)
    }
}

/// NoOfEventsPerType (appendix 2.109).
pub type NoOfEventsPerTypeGen2 = u8;

/// NoOfFaultsPerType (appendix 2.110).
pub type NoOfFaultsPerTypeGen2 = u8;

/// NoOfCardVehicleRecords (appendix 2.105).
pub type NoOfCardVehicleRecordsGen2 = u16;

/// NoOfCardPlaceRecords (appendix 2.104).
pub type NoOfCardPlaceRecordsGen2 = u16;

/// NoOfGnssAdRecords (appendix 2.111).
pub type NoOfGnssAdRecordsGen2 = u16;

/// NoOfSpecificConditionRecords (appendix 2.112).
pub type NoOfSpecificConditionRecordsGen2 = u16;

/// NoOfCardVehicleUnitRecords (appendix 2.106).
pub type NoOfCardVehicleUnitRecordsGen2 = u16;

/// NoOfGNSSADRecords (appendix 2.111).
pub type NoOfGNSSADRecords = u16;

/// DriverCardApplicationIdentification (appendix 2.61) as generation 2 defines it.
#[derive(Debug)]
pub struct DriverCardApplicationIdentificationGen2 {
    pub type_of_tachograph_card_id: EquipmentTypeGen2,
    pub card_structure_version: CardStructureVersion,
    pub no_of_events_per_type: u8,
    pub no_of_faults_per_type: u8,
    pub activity_structure_length: u16,
    pub no_of_card_vehicle_records: u16,
    pub no_of_card_place_records: u16,
    pub no_of_gnss_ad_records: u16,
    pub no_of_specific_condition_records: u16,
    pub no_of_card_vehicle_unit_records: u16,
}

impl DriverCardApplicationIdentificationGen2 {
    /// Reads a `DriverCardApplicationIdentificationGen2` at the reader's position.
    pub fn parse(cursor: &mut Cursor) -> (res: Result<DriverCardApplicationIdentificationGen2, ParseError>)
        ensures
            final(cursor).data() == old(cursor).data(),
            old(cursor).pos() <= final(cursor).pos(),
            final(cursor).pos() == DriverCardApplicationIdentificationGen2::parse_end(old(cursor).data(), old(cursor).pos()),
            res is Ok <==> DriverCardApplicationIdentificationGen2::parse_ok(old(cursor).data(), old(cursor).pos()),
            res matches Ok(v) ==> DriverCardApplicationIdentificationGen2::parsed_as(old(cursor).data(), old(cursor).pos(), v),
            res matches Err(e) ==> e == DriverCardApplicationIdentificationGen2::parse_err(old(cursor).data(), old(cursor).pos()),
    {
        let type_of_tachograph_card_id = EquipmentTypeGen2::parse(cursor)?;
        let card_structure_version = CardStructureVersion::parse(cursor)?;
        let no_of_events_per_type = u8::parse(cursor)?;
        let no_of_faults_per_type = u8::parse(cursor)?;
        let activity_structure_length = u16::parse(cursor)?;
        let no_of_card_vehicle_records = u16::parse(cursor)?;
        let no_of_card_place_records = u16::parse(cursor)?;
        let no_of_gnss_ad_records = u16::parse(cursor)?;
        let no_of_specific_condition_records = u16::parse(cursor)?;
        let no_of_card_vehicle_unit_records = u16::parse(cursor)?;
        Ok(DriverCardApplicationIdentificationGen2 { type_of_tachograph_card_id, card_structure_version, no_of_events_per_type, no_of_faults_per_type, activity_structure_length, no_of_card_vehicle_records, no_of_card_place_records, no_of_gnss_ad_records, no_of_specific_condition_records, no_of_card_vehicle_unit_records })
    }
}

impl Parse for DriverCardApplicationIdentificationGen2 {
    open spec fn parse_ok(d: Seq<u8>, p: int) -> bool {
        let p1 = EquipmentTypeGen2::parse_end(d, p);
        let p2 = CardStructureVersion::parse_end(d, p1);
        let p3 = u8::parse_end(d, p2);
        let p4 = u8::parse_end(d, p3);
        let p5 = u16::parse_end(d, p4);
        let p6 = u16::parse_end(d, p5);
        let p7 = u16::parse_end(d, p6);
        let p8 = u16::parse_end(d, p7);
        let p9 = u16::parse_end(d, p8);
        EquipmentTypeGen2::parse_ok(d, p)
            && CardStructureVersion::parse_ok(d, p1)
            && u8::parse_ok(d, p2)
            && u8::parse_ok(d, p3)
            && u16::parse_ok(d, p4)
            && u16::parse_ok(d, p5)
            && u16::parse_ok(d, p6)
            && u16::parse_ok(d, p7)
            && u16::parse_ok(d, p8)
            && u16::parse_ok(d, p9)
    }

    open spec fn parse_end(d: Seq<u8>, p: int) -> int {
        let p1 = EquipmentTypeGen2::parse_end(d, p);
        let p2 = CardStructureVersion::parse_end(d, p1);
        let p3 = u8::parse_end(d, p2);
        let p4 = u8::parse_end(d, p3);
        let p5 = u16::parse_end(d, p4);
        let p6 = u16::parse_end(d, p5);
        let p7 = u16::parse_end(d, p6);
        let p8 = u16::parse_end(d, p7);
        let p9 = u16::parse_end(d, p8);
        let p10 = u16::parse_end(d, p9);
        if !EquipmentTypeGen2::parse_ok(d, p) {
            p1
        } else if !CardStructureVersion::parse_ok(d, p1) {
            p2
        } else if !u8::parse_ok(d, p2) {
            p3
        } else if !u8::parse_ok(d, p3) {
            p4
        } else if !u16::parse_ok(d, p4) {
            p5
        } else if !u16::parse_ok(d, p5) {
            p6
        } else if !u16::parse_ok(d, p6) {
            p7
        } else if !u16::parse_ok(d, p7) {
            p8
        } else if !u16::parse_ok(d, p8) {
            p9
        } else if !u16::parse_ok(d, p9) {
            p10
        } else {
            p10
        }
    }

    open spec fn parsed_as(d: Seq<u8>, p: int, v: DriverCardApplicationIdentificationGen2) -> bool {
        let p1 = EquipmentTypeGen2::parse_end(d, p);
        let p2 = CardStructureVersion::parse_end(d, p1);
        let p3 = u8::parse_end(d, p2);
        let p4 = u8::parse_end(d, p3);
        let p5 = u16::parse_end(d, p4);
        let p6 = u16::parse_end(d, p5);
        let p7 = u16::parse_end(d, p6);
        let p8 = u16::parse_end(d, p7);
        let p9 = u16::parse_end(d, p8);
        EquipmentTypeGen2::parsed_as(d, p, v.type_of_tachograph_card_id)
            && CardStructureVersion::parsed_as(d, p1, v.card_structure_version)
            && u8::parsed_as(d, p2, v.no_of_events_per_type)
            && u8::parsed_as(d, p3, v.no_of_faults_per_type)
            && u16::parsed_as(d, p4, v.activity_structure_length)
            && u16::parsed_as(d, p5, v.no_of_card_vehicle_records)
            && u16::parsed_as(d, p6, v.no_of_card_place_records)
            && u16::parsed_as(d, p7, v.no_of_gnss_ad_records)
            && u16::parsed_as(d, p8, v.no_of_specific_condition_records)
            && u16::parsed_as(d, p9, v.no_of_card_vehicle_unit_records)
    }

    open spec fn parse_err(d: Seq<u8>, p: int) -> ParseError {
        let p1 = EquipmentTypeGen2::parse_end(d, p);
        let p2 = CardStructureVersion::parse_end(d, p1);
        let p3 = u8::parse_end(d, p2);
        let p4 = u8::parse_end(d, p3);
        let p5 = u16::parse_end(d, p4);
        let p6 = u16::parse_end(d, p5);
        let p7 = u16::parse_end(d, p6);
        let p8 = u16::parse_end(d, p7);
        let p9 = u16::parse_end(d, p8);
        if !EquipmentTypeGen2::parse_ok(d, p) {
            EquipmentTypeGen2::parse_err(d, p)
        } else if !CardStructureVersion::parse_ok(d, p1) {
            CardStructureVersion::parse_err(d, p1)
        } else if !u8::parse_ok(d, p2) {
            u8::parse_err(d, p2)
        } else if !u8::parse_ok(d, p3) {
            u8::parse_err(d, p3)
        } else if !u16::parse_ok(d, p4) {
            u16::parse_err(d, p4)
        } else if !u16::parse_ok(d, p5) {
            u16::parse_err(d, p5)
        } else if !u16::parse_ok(d, p6) {
            u16::parse_err(d, p6)
        } else if !u16::parse_ok(d, p7) {
            u16::parse_err(d, p7)
        } else if !u16::parse_ok(d, p8) {
            u16::parse_err(d, p8)
        } else if !u16::parse_ok(d, p9) {
            u16::parse_err(d, p9)
        } else {
            ParseError::InvalidValue
        }
    }

    fn parse(cursor: &mut Cursor) -> (res: Result<DriverCardApplicationIdentificationGen2, ParseError>) {
        DriverCardApplicationIdentificationGen2::parse(cursor)
    }
}

/// The Application_Identification file of a generation 2 driver card.
#[derive(Debug)]
pub struct ApplicationIdentificationGen2 {
    pub driver_card_application_identification: DriverCardApplicationIdentificationGen2,
}

impl ApplicationIdentificationGen2 {
    /// Reads a `ApplicationIdentificationGen2` at the reader's position.
    pub fn parse(cursor: &mut Cursor) -> (res: Result<ApplicationIdentificationGen2, ParseError>)
        ensures
            final(cursor).data() == old(cursor).data(),
            old(cursor).pos() <= final(cursor).pos(),
            final(cursor).pos() == ApplicationIdentificationGen2::parse_end(old(cursor).data(), old(cursor).pos()),
            res is Ok <==> ApplicationIdentificationGen2::parse_ok(old(cursor).data(), old(cursor).pos()),
            res matches Ok(v) ==> ApplicationIdentificationGen2::parsed_as(old(cursor).data(), old(cursor).pos(), v),
            res matches Err(e) ==> e == ApplicationIdentificationGen2::parse_err(old(cursor).data(), old(cursor).pos()),
    {
        let driver_card_application_identification = DriverCardApplicationIdentificationGen2::parse(cursor)?;
        Ok(ApplicationIdentificationGen2 { driver_card_application_identification })
    }
}

impl Parse for ApplicationIdentificationGen2 {
    open spec fn parse_ok(d: Seq<u8>, p: int) -> bool {
        DriverCardApplicationIdentificationGen2::parse_ok(d, p)
    }

    open spec fn parse_end(d: Seq<u8>, p: int) -> int {
        let p1 = DriverCardApplicationIdentificationGen2::parse_end(d, p);
        if !DriverCardApplicationIdentificationGen2::parse_ok(d, p) {
            p1
        } else {
            p1
        }
    }

    open spec fn parsed_as(d: Seq<u8>, p: int, v: ApplicationIdentificationGen2) -> bool {
        DriverCardApplicationIdentificationGen2::parsed_as(d, p, v.driver_card_application_identification)
    }

    open spec fn parse_err(d: Seq<u8>, p: int) -> ParseError {
        if !DriverCardApplicationIdentificationGen2::parse_ok(d, p) {
            DriverCardApplicationIdentificationGen2::parse_err(d, p)
        } else {
            ParseError::InvalidValue
        }
    }

    fn parse(cursor: &mut Cursor) -> (res: Result<ApplicationIdentificationGen2, ParseError>) {
        ApplicationIdentificationGen2::parse(cursor)
    }
}

/// The Card_Icc_Identification file (appendix 2.23) of a generation 2 card.
#[derive(Debug)]
pub struct CardIccIdentificationGen2 {
    pub clock_stop: u8,
    pub card_extended_serial_number: ExtendedSerialNumberGen2,
    pub card_approval_number: CardApprovalNumber,
    pub card_personaliser_id: ManufacturerCode,
    pub embedder_ic_assembler_id: EmbedderIcAssemblerId,
    pub ic_identifier: Vec<u8>,
}

impl CardIccIdentificationGen2 {
    /// Reads a `CardIccIdentificationGen2` at the reader's position.
    pub fn parse(cursor: &mut Cursor) -> (res: Result<CardIccIdentificationGen2, ParseError>)
        ensures
            final(cursor).data() == old(cursor).data(),
            old(cursor).pos() <= final(cursor).pos(),
            final(cursor).pos() == CardIccIdentificationGen2::parse_end(old(cursor).data(), old(cursor).pos()),
            res is Ok <==> CardIccIdentificationGen2::parse_ok(old(cursor).data(), old(cursor).pos()),
            res matches Ok(v) ==> CardIccIdentificationGen2::parsed_as(old(cursor).data(), old(cursor).pos(), v),
            res matches Err(e) ==> e == CardIccIdentificationGen2::parse_err(old(cursor).data(), old(cursor).pos()),
    {
        let clock_stop = u8::parse(cursor)?;
        let card_extended_serial_number = ExtendedSerialNumberGen2::parse(cursor)?;
        let card_approval_number = CardApprovalNumber::parse(cursor)?;
        let card_personaliser_id = ManufacturerCode::parse(cursor)?;
        let embedder_ic_assembler_id = EmbedderIcAssemblerId::parse(cursor)?;
        let ic_identifier = cursor.read_bytes(2)?;
        Ok(CardIccIdentificationGen2 { clock_stop, card_extended_serial_number, card_approval_number, card_personaliser_id, embedder_ic_assembler_id, ic_identifier })
    }
}

impl Parse for CardIccIdentificationGen2 {
    open spec fn parse_ok(d: Seq<u8>, p: int) -> bool {
        let p1 = u8::parse_end(d, p);
        let p2 = ExtendedSerialNumberGen2::parse_end(d, p1);
        let p3 = CardApprovalNumber::parse_end(d, p2);
        let p4 = ManufacturerCode::parse_end(d, p3);
        let p5 = EmbedderIcAssemblerId::parse_end(d, p4);
        u8::parse_ok(d, p)
            && ExtendedSerialNumberGen2::parse_ok(d, p1)
            && CardApprovalNumber::parse_ok(d, p2)
            && ManufacturerCode::parse_ok(d, p3)
            && EmbedderIcAssemblerId::parse_ok(d, p4)
            && bytes_ok(d, p5, 2)
    }

    open spec fn parse_end(d: Seq<u8>, p: int) -> int {
        let p1 = u8::parse_end(d, p);
        let p2 = ExtendedSerialNumberGen2::parse_end(d, p1);
        let p3 = CardApprovalNumber::parse_end(d, p2);
        let p4 = ManufacturerCode::parse_end(d, p3);
        let p5 = EmbedderIcAssemblerId::parse_end(d, p4);
        let p6 = bytes_end(d, p5, 2);
        if !u8::parse_ok(d, p) {
            p1
        } else if !ExtendedSerialNumberGen2::parse_ok(d, p1) {
            p2
        } else if !CardApprovalNumber::parse_ok(d, p2) {
            p3
        } else if !ManufacturerCode::parse_ok(d, p3) {
            p4
        } else if !EmbedderIcAssemblerId::parse_ok(d, p4) {
            p5
        } else if !bytes_ok(d, p5, 2) {
            p6
        } else {
            p6
        }
    }

    open spec fn parsed_as(d: Seq<u8>, p: int, v: CardIccIdentificationGen2) -> bool {
        let p1 = u8::parse_end(d, p);
        let p2 = ExtendedSerialNumberGen2::parse_end(d, p1);
        let p3 = CardApprovalNumber::parse_end(d, p2);
        let p4 = ManufacturerCode::parse_end(d, p3);
        let p5 = EmbedderIcAssemblerId::parse_end(d, p4);
        u8::parsed_as(d, p, v.clock_stop)
            && ExtendedSerialNumberGen2::parsed_as(d, p1, v.card_extended_serial_number)
            && CardApprovalNumber::parsed_as(d, p2, v.card_approval_number)
            && ManufacturerCode::parsed_as(d, p3, v.card_personaliser_id)
            && EmbedderIcAssemblerId::parsed_as(d, p4, v.embedder_ic_assembler_id)
            && v.ic_identifier@ == d.subrange(p5, p5 + 2)
    }

    open spec fn parse_err(d: Seq<u8>, p: int) -> ParseError {
        let p1 = u8::parse_end(d, p);
        let p2 = ExtendedSerialNumberGen2::parse_end(d, p1);
        let p3 = CardApprovalNumber::parse_end(d, p2);
        let p4 = ManufacturerCode::parse_end(d, p3);
        let p5 = EmbedderIcAssemblerId::parse_end(d, p4);
        if !u8::parse_ok(d, p) {
            u8::parse_err(d, p)
        } else if !ExtendedSerialNumberGen2::parse_ok(d, p1) {
            ExtendedSerialNumberGen2::parse_err(d, p1)
        } else if !CardApprovalNumber::parse_ok(d, p2) {
            CardApprovalNumber::parse_err(d, p2)
        } else if !ManufacturerCode::parse_ok(d, p3) {
            ManufacturerCode::parse_err(d, p3)
        } else if !EmbedderIcAssemblerId::parse_ok(d, p4) {
            EmbedderIcAssemblerId::parse_err(d, p4)
        } else if !bytes_ok(d, p5, 2) {
            ParseError::UnexpectedEnd
        } else {
            ParseError::InvalidValue
        }
    }

    fn parse(cursor: &mut Cursor) -> (res: Result<CardIccIdentificationGen2, ParseError>) {
        CardIccIdentificationGen2::parse(cursor)
    }
}

/// CardEventRecord (appendix 2.20) as generation 2 defines it: 24 bytes.
#[derive(Debug)]
pub struct CardEventRecordGen2 {
    pub event_type: EventFaultTypeGen2,
    pub event_begin_time: TimeReal,
    pub event_end_time: TimeReal,
    pub event_vehicle_registration: VehicleRegistrationIdentification,
}

impl CardEventRecordGen2 {
    /// The number of bytes of a CardEventRecordGen2.
    pub const SIZE: usize = 24;

    /// The fields can be read from position `p` of `d`.
    pub open spec fn fields_ok(d: Seq<u8>, p: int) -> bool {
        let p1 = EventFaultTypeGen2::parse_end(d, p);
        let p2 = TimeReal::parse_end(d, p1);
        let p3 = TimeReal::parse_end(d, p2);
        EventFaultTypeGen2::parse_ok(d, p)
            && TimeReal::parse_ok(d, p1)
            && TimeReal::parse_ok(d, p2)
            && VehicleRegistrationIdentification::parse_ok(d, p3)
    }

    /// The error of a read of the fields from position `p` of `d` that fails.
    pub open spec fn fields_err(d: Seq<u8>, p: int) -> ParseError {
        let p1 = EventFaultTypeGen2::parse_end(d, p);
        let p2 = TimeReal::parse_end(d, p1);
        let p3 = TimeReal::parse_end(d, p2);
        if !EventFaultTypeGen2::parse_ok(d, p) {
            EventFaultTypeGen2::parse_err(d, p)
        } else if !TimeReal::parse_ok(d, p1) {
            TimeReal::parse_err(d, p1)
        } else if !TimeReal::parse_ok(d, p2) {
            TimeReal::parse_err(d, p2)
        } else if !VehicleRegistrationIdentification::parse_ok(d, p3) {
            VehicleRegistrationIdentification::parse_err(d, p3)
        } else {
            ParseError::InvalidValue
        }
    }

    /// `v` holds the fields read from position `p` of `d`.
    pub open spec fn fields_as(d: Seq<u8>, p: int, v: CardEventRecordGen2) -> bool {
        let p1 = EventFaultTypeGen2::parse_end(d, p);
        let p2 = TimeReal::parse_end(d, p1);
        let p3 = TimeReal::parse_end(d, p2);
        EventFaultTypeGen2::parsed_as(d, p, v.event_type)
            && TimeReal::parsed_as(d, p1, v.event_begin_time)
            && TimeReal::parsed_as(d, p2, v.event_end_time)
            && VehicleRegistrationIdentification::parsed_as(d, p3, v.event_vehicle_registration)
    }
}

impl CardEventRecordGen2 {
    /// Reads a `CardEventRecordGen2` at the reader's position.
    pub fn parse(cursor: &mut Cursor) -> (res: Result<CardEventRecordGen2, ParseError>)
        ensures
            final(cursor).data() == old(cursor).data(),
            old(cursor).pos() <= final(cursor).pos(),
            final(cursor).pos() == CardEventRecordGen2::parse_end(old(cursor).data(), old(cursor).pos()),
            res is Ok <==> CardEventRecordGen2::parse_ok(old(cursor).data(), old(cursor).pos()),
            res matches Ok(v) ==> CardEventRecordGen2::parsed_as(old(cursor).data(), old(cursor).pos(), v),
            res matches Err(e) ==> e == CardEventRecordGen2::parse_err(old(cursor).data(), old(cursor).pos()),
    {
        let mut inner = cursor.take_exact(24)?;
        let event_type = EventFaultTypeGen2::parse(&mut inner)?;
        let event_begin_time = TimeReal::parse(&mut inner)?;
        let event_end_time = TimeReal::parse(&mut inner)?;
        let event_vehicle_registration = VehicleRegistrationIdentification::parse(&mut inner)?;
        Ok(CardEventRecordGen2 { event_type, event_begin_time, event_end_time, event_vehicle_registration })
    }
}

impl Parse for CardEventRecordGen2 {
    open spec fn parse_ok(d: Seq<u8>, p: int) -> bool {
        bytes_ok(d, p, 24) && CardEventRecordGen2::fields_ok(d.subrange(p, p + 24), 0)
    }

    open spec fn parse_end(d: Seq<u8>, p: int) -> int {
        bytes_end(d, p, 24)
    }

    open spec fn parsed_as(d: Seq<u8>, p: int, v: CardEventRecordGen2) -> bool {
        CardEventRecordGen2::fields_as(d.subrange(p, p + 24), 0, v)
    }

    open spec fn parse_err(d: Seq<u8>, p: int) -> ParseError {
        if !bytes_ok(d, p, 24) {
            ParseError::UnexpectedEnd
        } else {
            CardEventRecordGen2::fields_err(d.subrange(p, p + 24), 0)
        }
    }

    fn parse(cursor: &mut Cursor) -> (res: Result<CardEventRecordGen2, ParseError>) {
        CardEventRecordGen2::parse(cursor)
    }
}

/// CardEventData (appendix 2.19) as generation 2 defines it: eleven groups of
/// event records, each the readable records of its slots; groups without any are left out.
#[derive(Debug)]
pub struct CardEventDataGen2 {
    pub value: Vec<Vec<CardEventRecordGen2>>,
}

impl CardEventDataGen2 {
    /// Reads a `CardEventDataGen2` of `size` bytes at the reader's position.
    pub fn parse_dyn_size(cursor: &mut Cursor, size: usize) -> (res: Result<CardEventDataGen2, ParseError>)
        ensures
            final(cursor).data() == old(cursor).data(),
            old(cursor).pos() <= final(cursor).pos(),
            final(cursor).pos() == CardEventDataGen2::dyn_end(old(cursor).data(), old(cursor).pos(), size as int),
            res is Ok <==> CardEventDataGen2::dyn_ok(old(cursor).data(), old(cursor).pos(), size as int),
            res matches Ok(v) ==> CardEventDataGen2::dyn_as(old(cursor).data(), old(cursor).pos(), size as int, v),
            res matches Err(e) ==> e == CardEventDataGen2::dyn_err(old(cursor).data(), old(cursor).pos(), size as int),
    {
        Ok(CardEventDataGen2 { value: parse_grouped::<CardEventRecordGen2>(cursor, 11, size / 11 / 24) })
    }
}

impl ParseDyn for CardEventDataGen2 {
    open spec fn dyn_ok(d: Seq<u8>, p: int, size: int) -> bool {
        true
    }

    open spec fn dyn_end(d: Seq<u8>, p: int, size: int) -> int {
        group_start::<CardEventRecordGen2>(d, p, (size / 11 / 24) as nat, 11)
    }

    open spec fn dyn_err(d: Seq<u8>, p: int, size: int) -> ParseError {
        ParseError::UnexpectedEnd
    }

    open spec fn dyn_as(d: Seq<u8>, p: int, size: int, v: CardEventDataGen2) -> bool {
        groups_as(d, nonempty_groups::<CardEventRecordGen2>(d, p, (size / 11 / 24) as nat, 11), v.value@)
    }

    fn parse_dyn_size(cursor: &mut Cursor, size: usize) -> (res: Result<CardEventDataGen2, ParseError>) {
        CardEventDataGen2::parse_dyn_size(cursor, size)
    }
}

/// CardFaultRecord (appendix 2.22) as generation 2 defines it: 24 bytes.
#[derive(Debug)]
pub struct CardFaultRecordGen2 {
    pub fault_type: EventFaultTypeGen2,
    pub fault_begin_time: TimeReal,
    pub fault_end_time: TimeReal,
    pub fault_vehicle_registration: VehicleRegistrationIdentification,
}

impl CardFaultRecordGen2 {
    /// The number of bytes of a CardFaultRecordGen2.
    pub const SIZE: usize = 24;

    /// The fields can be read from position `p` of `d`.
    pub open spec fn fields_ok(d: Seq<u8>, p: int) -> bool {
        let p1 = EventFaultTypeGen2::parse_end(d, p);
        let p2 = TimeReal::parse_end(d, p1);
        let p3 = TimeReal::parse_end(d, p2);
        EventFaultTypeGen2::parse_ok(d, p)
            && TimeReal::parse_ok(d, p1)
            && TimeReal::parse_ok(d, p2)
            && VehicleRegistrationIdentification::parse_ok(d, p3)
    }

    /// The error of a read of the fields from position `p` of `d` that fails.
    pub open spec fn fields_err(d: Seq<u8>, p: int) -> ParseError {
        let p1 = EventFaultTypeGen2::parse_end(d, p);
        let p2 = TimeReal::parse_end(d, p1);
        let p3 = TimeReal::parse_end(d, p2);
        if !EventFaultTypeGen2::parse_ok(d, p) {
            EventFaultTypeGen2::parse_err(d, p)
        } else if !TimeReal::parse_ok(d, p1) {
            TimeReal::parse_err(d, p1)
        } else if !TimeReal::parse_ok(d, p2) {
            TimeReal::parse_err(d, p2)
        } else if !VehicleRegistrationIdentification::parse_ok(d, p3) {
            VehicleRegistrationIdentification::parse_err(d, p3)
        } else {
            ParseError::InvalidValue
        }
    }

    /// `v` holds the fields read from position `p` of `d`.
    pub open spec fn fields_as(d: Seq<u8>, p: int, v: CardFaultRecordGen2) -> bool {
        let p1 = EventFaultTypeGen2::parse_end(d, p);
        let p2 = TimeReal::parse_end(d, p1);
        let p3 = TimeReal::parse_end(d, p2);
        EventFaultTypeGen2::parsed_as(d, p, v.fault_type)
            && TimeReal::parsed_as(d, p1, v.fault_begin_time)
            && TimeReal::parsed_as(d, p2, v.fault_end_time)
            && VehicleRegistrationIdentification::parsed_as(d, p3, v.fault_vehicle_registration)
    }
}

impl CardFaultRecordGen2 {
    /// Reads a `CardFaultRecordGen2` at the reader's position.
    pub fn parse(cursor: &mut Cursor) -> (res: Result<CardFaultRecordGen2, ParseError>)
        ensures
            final(cursor).data() == old(cursor).data(),
            old(cursor).pos() <= final(cursor).pos(),
            final(cursor).pos() == CardFaultRecordGen2::parse_end(old(cursor).data(), old(cursor).pos()),
            res is Ok <==> CardFaultRecordGen2::parse_ok(old(cursor).data(), old(cursor).pos()),
            res matches Ok(v) ==> CardFaultRecordGen2::parsed_as(old(cursor).data(), old(cursor).pos(), v),
            res matches Err(e) ==> e == CardFaultRecordGen2::parse_err(old(cursor).data(), old(cursor).pos()),
    {
        let mut inner = cursor.take_exact(24)?;
        let fault_type = EventFaultTypeGen2::parse(&mut inner)?;
        let fault_begin_time = TimeReal::parse(&mut inner)?;
        let fault_end_time = TimeReal::parse(&mut inner)?;
        let fault_vehicle_registration = VehicleRegistrationIdentification::parse(&mut inner)?;
        Ok(CardFaultRecordGen2 { fault_type, fault_begin_time, fault_end_time, fault_vehicle_registration })
    }
}

impl Parse for CardFaultRecordGen2 {
    open spec fn parse_ok(d: Seq<u8>, p: int) -> bool {
        bytes_ok(d, p, 24) && CardFaultRecordGen2::fields_ok(d.subrange(p, p + 24), 0)
    }

    open spec fn parse_end(d: Seq<u8>, p: int) -> int {
        bytes_end(d, p, 24)
    }

    open spec fn parsed_as(d: Seq<u8>, p: int, v: CardFaultRecordGen2) -> bool {
        CardFaultRecordGen2::fields_as(d.subrange(p, p + 24), 0, v)
    }

    open spec fn parse_err(d: Seq<u8>, p: int) -> ParseError {
        if !bytes_ok(d, p, 24) {
            ParseError::UnexpectedEnd
        } else {
            CardFaultRecordGen2::fields_err(d.subrange(p, p + 24), 0)
        }
    }

    fn parse(cursor: &mut Cursor) -> (res: Result<CardFaultRecordGen2, ParseError>) {
        CardFaultRecordGen2::parse(cursor)
    }
}

/// CardFaultData (appendix 2.21) as generation 2 defines it: a file of 1152
/// bytes read as six groups of eight fault records, each the readable records
/// of its slots; groups without any are left out.
#[derive(Debug)]
pub struct CardFaultDataGen2 {
    pub value: Vec<Vec<CardFaultRecordGen2>>,
}

impl CardFaultDataGen2 {
    /// Reads a `CardFaultDataGen2` at the reader's position.
    pub fn parse(cursor: &mut Cursor) -> (res: Result<CardFaultDataGen2, ParseError>)
        ensures
            final(cursor).data() == old(cursor).data(),
            old(cursor).pos() <= final(cursor).pos(),
            final(cursor).pos() == CardFaultDataGen2::parse_end(old(cursor).data(), old(cursor).pos()),
            res is Ok <==> CardFaultDataGen2::parse_ok(old(cursor).data(), old(cursor).pos()),
            res matches Ok(v) ==> CardFaultDataGen2::parsed_as(old(cursor).data(), old(cursor).pos(), v),
            res matches Err(e) ==> e == CardFaultDataGen2::parse_err(old(cursor).data(), old(cursor).pos()),
    {
        Ok(CardFaultDataGen2 { value: parse_grouped::<CardFaultRecordGen2>(cursor, 6, 1152 / 24 / 6) })
    }
}

impl Parse for CardFaultDataGen2 {
    open spec fn parse_ok(d: Seq<u8>, p: int) -> bool {
        true
    }

    open spec fn parse_end(d: Seq<u8>, p: int) -> int {
        group_start::<CardFaultRecordGen2>(d, p, 8, 6)
    }

    open spec fn parse_err(d: Seq<u8>, p: int) -> ParseError {
        ParseError::UnexpectedEnd
    }

    open spec fn parsed_as(d: Seq<u8>, p: int, v: CardFaultDataGen2) -> bool {
        groups_as(d, nonempty_groups::<CardFaultRecordGen2>(d, p, 8, 6), v.value@)
    }

    fn parse(cursor: &mut Cursor) -> (res: Result<CardFaultDataGen2, ParseError>) {
        CardFaultDataGen2::parse(cursor)
    }
}

/// CardVehicleRecord (appendix 2.37) as generation 2 defines it: 48 bytes.
#[derive(Debug)]
pub struct CardVehicleRecordGen2 {
    pub vehicle_odometer_begin: OdometerShort,
    pub vehicle_odometer_end: OdometerShort,
    pub vehicle_first_use: TimeReal,
    pub vehicle_last_use: TimeReal,
    pub vehicle_registration: VehicleRegistrationIdentification,
    pub vu_data_block_counter: VuDataBlockCounter,
    pub vehicle_identification_number: VehicleIdentificationNumber,
}

impl CardVehicleRecordGen2 {
    /// The number of bytes of a CardVehicleRecordGen2.
    pub const SIZE: usize = 48;

    /// The fields can be read from position `p` of `d`.
    pub open spec fn fields_ok(d: Seq<u8>, p: int) -> bool {
        let p1 = OdometerShort::parse_end(d, p);
        let p2 = OdometerShort::parse_end(d, p1);
        let p3 = TimeReal::parse_end(d, p2);
        let p4 = TimeReal::parse_end(d, p3);
        let p5 = VehicleRegistrationIdentification::parse_end(d, p4);
        let p6 = VuDataBlockCounter::parse_end(d, p5);
        OdometerShort::parse_ok(d, p)
            && OdometerShort::parse_ok(d, p1)
            && TimeReal::parse_ok(d, p2)
            && TimeReal::parse_ok(d, p3)
            && VehicleRegistrationIdentification::parse_ok(d, p4)
            && VuDataBlockCounter::parse_ok(d, p5)
            && VehicleIdentificationNumber::parse_ok(d, p6)
    }

    /// The error of a read of the fields from position `p` of `d` that fails.
    pub open spec fn fields_err(d: Seq<u8>, p: int) -> ParseError {
        let p1 = OdometerShort::parse_end(d, p);
        let p2 = OdometerShort::parse_end(d, p1);
        let p3 = TimeReal::parse_end(d, p2);
        let p4 = TimeReal::parse_end(d, p3);
        let p5 = VehicleRegistrationIdentification::parse_end(d, p4);
        let p6 = VuDataBlockCounter::parse_end(d, p5);
        if !OdometerShort::parse_ok(d, p) {
            OdometerShort::parse_err(d, p)
        } else if !OdometerShort::parse_ok(d, p1) {
            OdometerShort::parse_err(d, p1)
        } else if !TimeReal::parse_ok(d, p2) {
            TimeReal::parse_err(d, p2)
        } else if !TimeReal::parse_ok(d, p3) {
            TimeReal::parse_err(d, p3)
        } else if !VehicleRegistrationIdentification::parse_ok(d, p4) {
            VehicleRegistrationIdentification::parse_err(d, p4)
        } else if !VuDataBlockCounter::parse_ok(d, p5) {
            VuDataBlockCounter::parse_err(d, p5)
        } else if !VehicleIdentificationNumber::parse_ok(d, p6) {
            VehicleIdentificationNumber::parse_err(d, p6)
        } else {
            ParseError::InvalidValue
        }
    }

    /// `v` holds the fields read from position `p` of `d`.
    pub open spec fn fields_as(d: Seq<u8>, p: int, v: CardVehicleRecordGen2) -> bool {
        let p1 = OdometerShort::parse_end(d, p);
        let p2 = OdometerShort::parse_end(d, p1);
        let p3 = TimeReal::parse_end(d, p2);
        let p4 = TimeReal::parse_end(d, p3);
        let p5 = VehicleRegistrationIdentification::parse_end(d, p4);
        let p6 = VuDataBlockCounter::parse_end(d, p5);
        OdometerShort::parsed_as(d, p, v.vehicle_odometer_begin)
            && OdometerShort::parsed_as(d, p1, v.vehicle_odometer_end)
            && TimeReal::parsed_as(d, p2, v.vehicle_first_use)
            && TimeReal::parsed_as(d, p3, v.vehicle_last_use)
            && VehicleRegistrationIdentification::parsed_as(d, p4, v.vehicle_registration)
            && VuDataBlockCounter::parsed_as(d, p5, v.vu_data_block_counter)
            && VehicleIdentificationNumber::parsed_as(d, p6, v.vehicle_identification_number)
    }
}

impl CardVehicleRecordGen2 {
    /// Reads a `CardVehicleRecordGen2` at the reader's position.
    pub fn parse(cursor: &mut Cursor) -> (res: Result<CardVehicleRecordGen2, ParseError>)
        ensures
            final(cursor).data() == old(cursor).data(),
            old(cursor).pos() <= final(cursor).pos(),
            final(cursor).pos() == CardVehicleRecordGen2::parse_end(old(cursor).data(), old(cursor).pos()),
            res is Ok <==> CardVehicleRecordGen2::parse_ok(old(cursor).data(), old(cursor).pos()),
            res matches Ok(v) ==> CardVehicleRecordGen2::parsed_as(old(cursor).data(), old(cursor).pos(), v),
            res matches Err(e) ==> e == CardVehicleRecordGen2::parse_err(old(cursor).data(), old(cursor).pos()),
    {
        let mut inner = cursor.take_exact(48)?;
        let vehicle_odometer_begin = OdometerShort::parse(&mut inner)?;
        let vehicle_odometer_end = OdometerShort::parse(&mut inner)?;
        let vehicle_first_use = TimeReal::parse(&mut inner)?;
        let vehicle_last_use = TimeReal::parse(&mut inner)?;
        let vehicle_registration = VehicleRegistrationIdentification::parse(&mut inner)?;
        let vu_data_block_counter = VuDataBlockCounter::parse(&mut inner)?;
        let vehicle_identification_number = VehicleIdentificationNumber::parse(&mut inner)?;
        Ok(CardVehicleRecordGen2 { vehicle_odometer_begin, vehicle_odometer_end, vehicle_first_use, vehicle_last_use, vehicle_registration, vu_data_block_counter, vehicle_identification_number })
    }
}

impl Parse for CardVehicleRecordGen2 {
    open spec fn parse_ok(d: Seq<u8>, p: int) -> bool {
        bytes_ok(d, p, 48) && CardVehicleRecordGen2::fields_ok(d.subrange(p, p + 48), 0)
    }

    open spec fn parse_end(d: Seq<u8>, p: int) -> int {
        bytes_end(d, p, 48)
    }

    open spec fn parsed_as(d: Seq<u8>, p: int, v: CardVehicleRecordGen2) -> bool {
        CardVehicleRecordGen2::fields_as(d.subrange(p, p + 48), 0, v)
    }

    open spec fn parse_err(d: Seq<u8>, p: int) -> ParseError {
        if !bytes_ok(d, p, 48) {
            ParseError::UnexpectedEnd
        } else {
            CardVehicleRecordGen2::fields_err(d.subrange(p, p + 48), 0)
        }
    }

    fn parse(cursor: &mut Cursor) -> (res: Result<CardVehicleRecordGen2, ParseError>) {
        CardVehicleRecordGen2::parse(cursor)
    }
}

/// How many slots of a file of `n` slots are read, given its newest-record
/// pointer `ptr`: up to and including the newest record when the pointer
/// names one of them, else all.
pub open spec fn slots_read(ptr: int, n: int) -> int {
    if 1 <= ptr < n {
        ptr
    } else {
        n
    }
}

/// CardVehiclesUsed (appendix 2.38) as generation 2 defines it: the file's
/// bytes hold the newest-record pointer and then 48-byte slots, which are read
/// up to the newest record; the readable records are kept.
#[derive(Debug)]
pub struct CardVehiclesUsedGen2 {
    pub vehicle_pointer_newest_record: u16,
    pub card_vehicle_records: Vec<CardVehicleRecordGen2>,
}

impl CardVehiclesUsedGen2 {
    /// Reads a `CardVehiclesUsedGen2` of `size` bytes at the reader's position.
    pub fn parse_dyn_size(cursor: &mut Cursor, size: usize) -> (res: Result<CardVehiclesUsedGen2, ParseError>)
        ensures
            final(cursor).data() == old(cursor).data(),
            old(cursor).pos() <= final(cursor).pos(),
            final(cursor).pos() == CardVehiclesUsedGen2::dyn_end(old(cursor).data(), old(cursor).pos(), size as int),
            res is Ok <==> CardVehiclesUsedGen2::dyn_ok(old(cursor).data(), old(cursor).pos(), size as int),
            res matches Ok(v) ==> CardVehiclesUsedGen2::dyn_as(old(cursor).data(), old(cursor).pos(), size as int, v),
            res matches Err(e) ==> e == CardVehiclesUsedGen2::dyn_err(old(cursor).data(), old(cursor).pos(), size as int),
    {
        let mut inner = cursor.take_exact(size)?;
        let vehicle_pointer_newest_record = inner.read_u16_be()?;
        let amount_of_records = size / 48;
        let n: usize = if vehicle_pointer_newest_record >= 1 && (vehicle_pointer_newest_record as usize)
            < amount_of_records {
            vehicle_pointer_newest_record as usize
        } else {
            amount_of_records
        };
        let card_vehicle_records = parse_kept::<CardVehicleRecordGen2>(&mut inner, n);
        Ok(CardVehiclesUsedGen2 { vehicle_pointer_newest_record, card_vehicle_records })
    }
}

impl ParseDyn for CardVehiclesUsedGen2 {
    open spec fn dyn_ok(d: Seq<u8>, p: int, size: int) -> bool {
        bytes_ok(d, p, size) && size >= 2
    }

    open spec fn dyn_end(d: Seq<u8>, p: int, size: int) -> int {
        bytes_end(d, p, size)
    }

    open spec fn dyn_err(d: Seq<u8>, p: int, size: int) -> ParseError {
        ParseError::UnexpectedEnd
    }

    open spec fn dyn_as(d: Seq<u8>, p: int, size: int, v: CardVehiclesUsedGen2) -> bool {
        let w = d.subrange(p, p + size);
        &&& v.vehicle_pointer_newest_record == be16(w, 0)
        &&& values_at(
            w,
            kept_positions::<CardVehicleRecordGen2>(w, 2, slots_read(be16(w, 0), size / 48) as nat),
            v.card_vehicle_records@,
        )
    }

    fn parse_dyn_size(cursor: &mut Cursor, size: usize) -> (res: Result<CardVehiclesUsedGen2, ParseError>) {
        CardVehiclesUsedGen2::parse_dyn_size(cursor, size)
    }
}

/// CardPlaceDailyWorkPeriod (appendix 2.27) as generation 2 defines it: the newest-record pointer and the readable records of its 21-byte slots, by entry time ascending.
#[derive(Debug)]
pub struct CardPlaceDailyWorkPeriodGen2 {
    pub place_pointer_newest_record: u16,
    pub place_records: Vec<PlaceRecordGen2>,
}

impl CardPlaceDailyWorkPeriodGen2 {
    /// Reads a `CardPlaceDailyWorkPeriodGen2` of `size` bytes at the reader's position.
    pub fn parse_dyn_size(cursor: &mut Cursor, size: usize) -> (res: Result<CardPlaceDailyWorkPeriodGen2, ParseError>)
        ensures
            final(cursor).data() == old(cursor).data(),
            old(cursor).pos() <= final(cursor).pos(),
            final(cursor).pos() == CardPlaceDailyWorkPeriodGen2::dyn_end(old(cursor).data(), old(cursor).pos(), size as int),
            res is Ok <==> CardPlaceDailyWorkPeriodGen2::dyn_ok(old(cursor).data(), old(cursor).pos(), size as int),
            res matches Ok(v) ==> CardPlaceDailyWorkPeriodGen2::dyn_as(old(cursor).data(), old(cursor).pos(), size as int, v),
            res matches Err(e) ==> e == CardPlaceDailyWorkPeriodGen2::dyn_err(old(cursor).data(), old(cursor).pos(), size as int),
    {
        let place_pointer_newest_record = cursor.read_u16_be()?;
        let kept = parse_kept::<PlaceRecordGen2>(cursor, size / 21);
        let ghost s0 = kept@;
        let place_records = sort_by_time(kept, false);
        proof {
            let d = old(cursor).data();
            let p = old(cursor).pos();
            assert(values_at(d, kept_positions::<PlaceRecordGen2>(d, p + 2, (size / 21) as nat), s0));
        }
        Ok(CardPlaceDailyWorkPeriodGen2 { place_pointer_newest_record, place_records })
    }
}

impl ParseDyn for CardPlaceDailyWorkPeriodGen2 {
    open spec fn dyn_ok(d: Seq<u8>, p: int, size: int) -> bool {
        bytes_ok(d, p, 2)
    }

    open spec fn dyn_end(d: Seq<u8>, p: int, size: int) -> int {
        if !bytes_ok(d, p, 2) {
            d.len() as int
        } else {
            attempt_pos::<PlaceRecordGen2>(d, p + 2, (size / 21) as nat)
        }
    }

    open spec fn dyn_err(d: Seq<u8>, p: int, size: int) -> ParseError {
        ParseError::UnexpectedEnd
    }

    open spec fn dyn_as(d: Seq<u8>, p: int, size: int, v: CardPlaceDailyWorkPeriodGen2) -> bool {
        v.place_pointer_newest_record == be16(d, p)
            && sorted_values_at(d, kept_positions::<PlaceRecordGen2>(d, p + 2, (size / 21) as nat), v.place_records@, false)
    }

    fn parse_dyn_size(cursor: &mut Cursor, size: usize) -> (res: Result<CardPlaceDailyWorkPeriodGen2, ParseError>) {
        CardPlaceDailyWorkPeriodGen2::parse_dyn_size(cursor, size)
    }
}

/// CardControlActivityDataRecord (appendix 2.15) as generation 2 defines it: 46 bytes.
#[derive(Debug)]
pub struct CardControlActivityDataRecordGen2 {
    pub control_type: ControlTypeGen2,
    pub control_time: Option<TimeReal>,
    pub control_card_number: FullCardNumberGen2,
    pub control_vehicle_registration: VehicleRegistrationIdentification,
    pub control_download_period_begin: Option<TimeReal>,
    pub control_download_period_end: Option<TimeReal>,
}

impl CardControlActivityDataRecordGen2 {
    /// The number of bytes of a CardControlActivityDataRecordGen2.
    pub const SIZE: usize = 46;

    /// The fields can be read from position `p` of `d`.
    pub open spec fn fields_ok(d: Seq<u8>, p: int) -> bool {
        let p1 = ControlTypeGen2::parse_end(d, p);
        let p2 = TimeReal::parse_end(d, p1);
        let p3 = FullCardNumberGen2::parse_end(d, p2);
        ControlTypeGen2::parse_ok(d, p)
            && FullCardNumberGen2::parse_ok(d, p2)
            && VehicleRegistrationIdentification::parse_ok(d, p3)
    }

    /// The error of a read of the fields from position `p` of `d` that fails.
    pub open spec fn fields_err(d: Seq<u8>, p: int) -> ParseError {
        let p1 = ControlTypeGen2::parse_end(d, p);
        let p2 = TimeReal::parse_end(d, p1);
        let p3 = FullCardNumberGen2::parse_end(d, p2);
        if !ControlTypeGen2::parse_ok(d, p) {
            ControlTypeGen2::parse_err(d, p)
        } else if !FullCardNumberGen2::parse_ok(d, p2) {
            FullCardNumberGen2::parse_err(d, p2)
        } else if !VehicleRegistrationIdentification::parse_ok(d, p3) {
            VehicleRegistrationIdentification::parse_err(d, p3)
        } else {
            ParseError::InvalidValue
        }
    }

    /// `v` holds the fields read from position `p` of `d`.
    pub open spec fn fields_as(d: Seq<u8>, p: int, v: CardControlActivityDataRecordGen2) -> bool {
        let p1 = ControlTypeGen2::parse_end(d, p);
        let p2 = TimeReal::parse_end(d, p1);
        let p3 = FullCardNumberGen2::parse_end(d, p2);
        let p4 = VehicleRegistrationIdentification::parse_end(d, p3);
        let p5 = TimeReal::parse_end(d, p4);
        ControlTypeGen2::parsed_as(d, p, v.control_type)
            && optional_as::<TimeReal>(d, p1, v.control_time)
            && FullCardNumberGen2::parsed_as(d, p2, v.control_card_number)
            && VehicleRegistrationIdentification::parsed_as(d, p3, v.control_vehicle_registration)
            && optional_as::<TimeReal>(d, p4, v.control_download_period_begin)
            && optional_as::<TimeReal>(d, p5, v.control_download_period_end)
    }
}

impl CardControlActivityDataRecordGen2 {
    /// Reads a `CardControlActivityDataRecordGen2` at the reader's position.
    pub fn parse(cursor: &mut Cursor) -> (res: Result<CardControlActivityDataRecordGen2, ParseError>)
        ensures
            final(cursor).data() == old(cursor).data(),
            old(cursor).pos() <= final(cursor).pos(),
            final(cursor).pos() == CardControlActivityDataRecordGen2::parse_end(old(cursor).data(), old(cursor).pos()),
            res is Ok <==> CardControlActivityDataRecordGen2::parse_ok(old(cursor).data(), old(cursor).pos()),
            res matches Ok(v) ==> CardControlActivityDataRecordGen2::parsed_as(old(cursor).data(), old(cursor).pos(), v),
            res matches Err(e) ==> e == CardControlActivityDataRecordGen2::parse_err(old(cursor).data(), old(cursor).pos()),
    {
        let mut inner = cursor.take_exact(46)?;
        let control_type = ControlTypeGen2::parse(&mut inner)?;
        let control_time = parse_optional::<TimeReal>(&mut inner);
        let control_card_number = FullCardNumberGen2::parse(&mut inner)?;
        let control_vehicle_registration = VehicleRegistrationIdentification::parse(&mut inner)?;
        let control_download_period_begin = parse_optional::<TimeReal>(&mut inner);
        let control_download_period_end = parse_optional::<TimeReal>(&mut inner);
        Ok(CardControlActivityDataRecordGen2 { control_type, control_time, control_card_number, control_vehicle_registration, control_download_period_begin, control_download_period_end })
    }
}

impl Parse for CardControlActivityDataRecordGen2 {
    open spec fn parse_ok(d: Seq<u8>, p: int) -> bool {
        bytes_ok(d, p, 46) && CardControlActivityDataRecordGen2::fields_ok(d.subrange(p, p + 46), 0)
    }

    open spec fn parse_end(d: Seq<u8>, p: int) -> int {
        bytes_end(d, p, 46)
    }

    open spec fn parsed_as(d: Seq<u8>, p: int, v: CardControlActivityDataRecordGen2) -> bool {
        CardControlActivityDataRecordGen2::fields_as(d.subrange(p, p + 46), 0, v)
    }

    open spec fn parse_err(d: Seq<u8>, p: int) -> ParseError {
        if !bytes_ok(d, p, 46) {
            ParseError::UnexpectedEnd
        } else {
            CardControlActivityDataRecordGen2::fields_err(d.subrange(p, p + 46), 0)
        }
    }

    fn parse(cursor: &mut Cursor) -> (res: Result<CardControlActivityDataRecordGen2, ParseError>) {
        CardControlActivityDataRecordGen2::parse(cursor)
    }
}

/// SpecificConditions (appendix 2.153) as generation 2 defines it: the newest-record pointer and the readable records of its five-byte slots, by entry time descending.
#[derive(Debug)]
pub struct SpecificConditionsGen2 {
    pub condition_pointer_newest_record: u16,
    pub specific_condition_records: Vec<SpecificConditionRecordGen2>,
}

impl SpecificConditionsGen2 {
    /// Reads a `SpecificConditionsGen2` of `size` bytes at the reader's position.
    pub fn parse_dyn_size(cursor: &mut Cursor, size: usize) -> (res: Result<SpecificConditionsGen2, ParseError>)
        ensures
            final(cursor).data() == old(cursor).data(),
            old(cursor).pos() <= final(cursor).pos(),
            final(cursor).pos() == SpecificConditionsGen2::dyn_end(old(cursor).data(), old(cursor).pos(), size as int),
            res is Ok <==> SpecificConditionsGen2::dyn_ok(old(cursor).data(), old(cursor).pos(), size as int),
            res matches Ok(v) ==> SpecificConditionsGen2::dyn_as(old(cursor).data(), old(cursor).pos(), size as int, v),
            res matches Err(e) ==> e == SpecificConditionsGen2::dyn_err(old(cursor).data(), old(cursor).pos(), size as int),
    {
        let condition_pointer_newest_record = cursor.read_u16_be()?;
        let kept = parse_kept::<SpecificConditionRecordGen2>(cursor, size / 5);
        let ghost s0 = kept@;
        let specific_condition_records = sort_by_time(kept, true);
        proof {
            let d = old(cursor).data();
            let p = old(cursor).pos();
            assert(values_at(d, kept_positions::<SpecificConditionRecordGen2>(d, p + 2, (size / 5) as nat), s0));
        }
        Ok(SpecificConditionsGen2 { condition_pointer_newest_record, specific_condition_records })
    }
}

impl ParseDyn for SpecificConditionsGen2 {
    open spec fn dyn_ok(d: Seq<u8>, p: int, size: int) -> bool {
        bytes_ok(d, p, 2)
    }

    open spec fn dyn_end(d: Seq<u8>, p: int, size: int) -> int {
        if !bytes_ok(d, p, 2) {
            d.len() as int
        } else {
            attempt_pos::<SpecificConditionRecordGen2>(d, p + 2, (size / 5) as nat)
        }
    }

    open spec fn dyn_err(d: Seq<u8>, p: int, size: int) -> ParseError {
        ParseError::UnexpectedEnd
    }

    open spec fn dyn_as(d: Seq<u8>, p: int, size: int, v: SpecificConditionsGen2) -> bool {
        v.condition_pointer_newest_record == be16(d, p)
            && sorted_values_at(d, kept_positions::<SpecificConditionRecordGen2>(d, p + 2, (size / 5) as nat), v.specific_condition_records@, true)
    }

    fn parse_dyn_size(cursor: &mut Cursor, size: usize) -> (res: Result<SpecificConditionsGen2, ParseError>) {
        SpecificConditionsGen2::parse_dyn_size(cursor, size)
    }
}

/// CardVehicleUnitRecord (appendix 2.39): ten bytes.
#[derive(Debug)]
pub struct CardVehicleUnitRecordGen2 {
    pub time_stamp: TimeReal,
    pub manufacturer_code: ManufacturerCode,
    pub device_id: u8,
    pub vu_software_version: VuSoftwareVersion,
}

impl CardVehicleUnitRecordGen2 {
    /// The number of bytes of a CardVehicleUnitRecordGen2.
    pub const SIZE: usize = 10;

    /// The fields can be read from position `p` of `d`.
    pub open spec fn fields_ok(d: Seq<u8>, p: int) -> bool {
        let p1 = TimeReal::parse_end(d, p);
        let p2 = ManufacturerCode::parse_end(d, p1);
        let p3 = u8::parse_end(d, p2);
        TimeReal::parse_ok(d, p)
            && ManufacturerCode::parse_ok(d, p1)
            && u8::parse_ok(d, p2)
            && VuSoftwareVersion::parse_ok(d, p3)
    }

    /// The error of a read of the fields from position `p` of `d` that fails.
    pub open spec fn fields_err(d: Seq<u8>, p: int) -> ParseError {
        let p1 = TimeReal::parse_end(d, p);
        let p2 = ManufacturerCode::parse_end(d, p1);
        let p3 = u8::parse_end(d, p2);
        if !TimeReal::parse_ok(d, p) {
            TimeReal::parse_err(d, p)
        } else if !ManufacturerCode::parse_ok(d, p1) {
            ManufacturerCode::parse_err(d, p1)
        } else if !u8::parse_ok(d, p2) {
            u8::parse_err(d, p2)
        } else if !VuSoftwareVersion::parse_ok(d, p3) {
            VuSoftwareVersion::parse_err(d, p3)
        } else {
            ParseError::InvalidValue
        }
    }

    /// `v` holds the fields read from position `p` of `d`.
    pub open spec fn fields_as(d: Seq<u8>, p: int, v: CardVehicleUnitRecordGen2) -> bool {
        let p1 = TimeReal::parse_end(d, p);
        let p2 = ManufacturerCode::parse_end(d, p1);
        let p3 = u8::parse_end(d, p2);
        TimeReal::parsed_as(d, p, v.time_stamp)
            && ManufacturerCode::parsed_as(d, p1, v.manufacturer_code)
            && u8::parsed_as(d, p2, v.device_id)
            && VuSoftwareVersion::parsed_as(d, p3, v.vu_software_version)
    }
}

impl CardVehicleUnitRecordGen2 {
    /// Reads a `CardVehicleUnitRecordGen2` at the reader's position.
    pub fn parse(cursor: &mut Cursor) -> (res: Result<CardVehicleUnitRecordGen2, ParseError>)
        ensures
            final(cursor).data() == old(cursor).data(),
            old(cursor).pos() <= final(cursor).pos(),
            final(cursor).pos() == CardVehicleUnitRecordGen2::parse_end(old(cursor).data(), old(cursor).pos()),
            res is Ok <==> CardVehicleUnitRecordGen2::parse_ok(old(cursor).data(), old(cursor).pos()),
            res matches Ok(v) ==> CardVehicleUnitRecordGen2::parsed_as(old(cursor).data(), old(cursor).pos(), v),
            res matches Err(e) ==> e == CardVehicleUnitRecordGen2::parse_err(old(cursor).data(), old(cursor).pos()),
    {
        let mut inner = cursor.take_exact(10)?;
        let time_stamp = TimeReal::parse(&mut inner)?;
        let manufacturer_code = ManufacturerCode::parse(&mut inner)?;
        let device_id = u8::parse(&mut inner)?;
        let vu_software_version = VuSoftwareVersion::parse(&mut inner)?;
        Ok(CardVehicleUnitRecordGen2 { time_stamp, manufacturer_code, device_id, vu_software_version })
    }
}

impl Parse for CardVehicleUnitRecordGen2 {
    open spec fn parse_ok(d: Seq<u8>, p: int) -> bool {
        bytes_ok(d, p, 10) && CardVehicleUnitRecordGen2::fields_ok(d.subrange(p, p + 10), 0)
    }

    open spec fn parse_end(d: Seq<u8>, p: int) -> int {
        bytes_end(d, p, 10)
    }

    open spec fn parsed_as(d: Seq<u8>, p: int, v: CardVehicleUnitRecordGen2) -> bool {
        CardVehicleUnitRecordGen2::fields_as(d.subrange(p, p + 10), 0, v)
    }

    open spec fn parse_err(d: Seq<u8>, p: int) -> ParseError {
        if !bytes_ok(d, p, 10) {
            ParseError::UnexpectedEnd
        } else {
            CardVehicleUnitRecordGen2::fields_err(d.subrange(p, p + 10), 0)
        }
    }

    fn parse(cursor: &mut Cursor) -> (res: Result<CardVehicleUnitRecordGen2, ParseError>) {
        CardVehicleUnitRecordGen2::parse(cursor)
    }
}

impl Timed for CardVehicleUnitRecordGen2 {
    open spec fn time_key(&self) -> int {
        self.time_stamp.0 as int
    }

    fn time_of(&self) -> (r: u32) {
        self.time_stamp.0
    }
}

/// CardVehicleUnitsUsed (appendix 2.40): the newest-record pointer and the readable records of its ten-byte slots, by time stamp descending.
#[derive(Debug)]
pub struct CardVehicleUnitsUsedGen2 {
    pub no_of_card_vehicle_unit_records: u16,
    pub card_vehicle_unit_records: Vec<CardVehicleUnitRecordGen2>,
}

impl CardVehicleUnitsUsedGen2 {
    /// Reads a `CardVehicleUnitsUsedGen2` of `size` bytes at the reader's position.
    pub fn parse_dyn_size(cursor: &mut Cursor, size: usize) -> (res: Result<CardVehicleUnitsUsedGen2, ParseError>)
        ensures
            final(cursor).data() == old(cursor).data(),
            old(cursor).pos() <= final(cursor).pos(),
            final(cursor).pos() == CardVehicleUnitsUsedGen2::dyn_end(old(cursor).data(), old(cursor).pos(), size as int),
            res is Ok <==> CardVehicleUnitsUsedGen2::dyn_ok(old(cursor).data(), old(cursor).pos(), size as int),
            res matches Ok(v) ==> CardVehicleUnitsUsedGen2::dyn_as(old(cursor).data(), old(cursor).pos(), size as int, v),
            res matches Err(e) ==> e == CardVehicleUnitsUsedGen2::dyn_err(old(cursor).data(), old(cursor).pos(), size as int),
    {
        let no_of_card_vehicle_unit_records = cursor.read_u16_be()?;
        let kept = parse_kept::<CardVehicleUnitRecordGen2>(cursor, size / 10);
        let ghost s0 = kept@;
        let card_vehicle_unit_records = sort_by_time(kept, true);
        proof {
            let d = old(cursor).data();
            let p = old(cursor).pos();
            assert(values_at(d, kept_positions::<CardVehicleUnitRecordGen2>(d, p + 2, (size / 10) as nat), s0));
        }
        Ok(CardVehicleUnitsUsedGen2 { no_of_card_vehicle_unit_records, card_vehicle_unit_records })
    }
}

impl ParseDyn for CardVehicleUnitsUsedGen2 {
    open spec fn dyn_ok(d: Seq<u8>, p: int, size: int) -> bool {
        bytes_ok(d, p, 2)
    }

    open spec fn dyn_end(d: Seq<u8>, p: int, size: int) -> int {
        if !bytes_ok(d, p, 2) {
            d.len() as int
        } else {
            attempt_pos::<CardVehicleUnitRecordGen2>(d, p + 2, (size / 10) as nat)
        }
    }

    open spec fn dyn_err(d: Seq<u8>, p: int, size: int) -> ParseError {
        ParseError::UnexpectedEnd
    }

    open spec fn dyn_as(d: Seq<u8>, p: int, size: int, v: CardVehicleUnitsUsedGen2) -> bool {
        v.no_of_card_vehicle_unit_records == be16(d, p)
            && sorted_values_at(d, kept_positions::<CardVehicleUnitRecordGen2>(d, p + 2, (size / 10) as nat), v.card_vehicle_unit_records@, true)
    }

    fn parse_dyn_size(cursor: &mut Cursor, size: usize) -> (res: Result<CardVehicleUnitsUsedGen2, ParseError>) {
        CardVehicleUnitsUsedGen2::parse_dyn_size(cursor, size)
    }
}

/// GNSSAccumulatedDrivingRecord (appendix 2.79).
#[derive(Debug)]
pub struct GNSSAccumulatedDrivingRecordGen2 {
    pub time_stamp: TimeReal,
    pub gnss_place_record: GNSSPlaceRecordGen2,
    pub vehicle_odometer_value: OdometerShort,
}

impl GNSSAccumulatedDrivingRecordGen2 {
    /// Reads a `GNSSAccumulatedDrivingRecordGen2` at the reader's position.
    pub fn parse(cursor: &mut Cursor) -> (res: Result<GNSSAccumulatedDrivingRecordGen2, ParseError>)
        ensures
            final(cursor).data() == old(cursor).data(),
            old(cursor).pos() <= final(cursor).pos(),
            final(cursor).pos() == GNSSAccumulatedDrivingRecordGen2::parse_end(old(cursor).data(), old(cursor).pos()),
            res is Ok <==> GNSSAccumulatedDrivingRecordGen2::parse_ok(old(cursor).data(), old(cursor).pos()),
            res matches Ok(v) ==> GNSSAccumulatedDrivingRecordGen2::parsed_as(old(cursor).data(), old(cursor).pos(), v),
            res matches Err(e) ==> e == GNSSAccumulatedDrivingRecordGen2::parse_err(old(cursor).data(), old(cursor).pos()),
    {
        let time_stamp = TimeReal::parse(cursor)?;
        let gnss_place_record = GNSSPlaceRecordGen2::parse(cursor)?;
        let vehicle_odometer_value = OdometerShort::parse(cursor)?;
        Ok(GNSSAccumulatedDrivingRecordGen2 { time_stamp, gnss_place_record, vehicle_odometer_value })
    }
}

impl Parse for GNSSAccumulatedDrivingRecordGen2 {
    open spec fn parse_ok(d: Seq<u8>, p: int) -> bool {
        let p1 = TimeReal::parse_end(d, p);
        let p2 = GNSSPlaceRecordGen2::parse_end(d, p1);
        TimeReal::parse_ok(d, p)
            && GNSSPlaceRecordGen2::parse_ok(d, p1)
            && OdometerShort::parse_ok(d, p2)
    }

    open spec fn parse_end(d: Seq<u8>, p: int) -> int {
        let p1 = TimeReal::parse_end(d, p);
        let p2 = GNSSPlaceRecordGen2::parse_end(d, p1);
        let p3 = OdometerShort::parse_end(d, p2);
        if !TimeReal::parse_ok(d, p) {
            p1
        } else if !GNSSPlaceRecordGen2::parse_ok(d, p1) {
            p2
        } else if !OdometerShort::parse_ok(d, p2) {
            p3
        } else {
            p3
        }
    }

    open spec fn parsed_as(d: Seq<u8>, p: int, v: GNSSAccumulatedDrivingRecordGen2) -> bool {
        let p1 = TimeReal::parse_end(d, p);
        let p2 = GNSSPlaceRecordGen2::parse_end(d, p1);
        TimeReal::parsed_as(d, p, v.time_stamp)
            && GNSSPlaceRecordGen2::parsed_as(d, p1, v.gnss_place_record)
            && OdometerShort::parsed_as(d, p2, v.vehicle_odometer_value)
    }

    open spec fn parse_err(d: Seq<u8>, p: int) -> ParseError {
        let p1 = TimeReal::parse_end(d, p);
        let p2 = GNSSPlaceRecordGen2::parse_end(d, p1);
        if !TimeReal::parse_ok(d, p) {
            TimeReal::parse_err(d, p)
        } else if !GNSSPlaceRecordGen2::parse_ok(d, p1) {
            GNSSPlaceRecordGen2::parse_err(d, p1)
        } else if !OdometerShort::parse_ok(d, p2) {
            OdometerShort::parse_err(d, p2)
        } else {
            ParseError::InvalidValue
        }
    }

    fn parse(cursor: &mut Cursor) -> (res: Result<GNSSAccumulatedDrivingRecordGen2, ParseError>) {
        GNSSAccumulatedDrivingRecordGen2::parse(cursor)
    }
}

impl Timed for GNSSAccumulatedDrivingRecordGen2 {
    open spec fn time_key(&self) -> int {
        self.time_stamp.0 as int
    }

    fn time_of(&self) -> (r: u32) {
        self.time_stamp.0
    }
}

/// GNSSAccumulatedDriving (appendix 2.78): the file's bytes hold the
/// newest-record pointer and then 18-byte slots; the readable records are
/// kept, by time stamp ascending.
#[derive(Debug)]
pub struct GNSSAccumulatedDrivingGen2 {
    pub gnss_ad_pointer_newest_record: u16,
    pub gnss_accumulated_driving_records: Vec<GNSSAccumulatedDrivingRecordGen2>,
}

impl GNSSAccumulatedDrivingGen2 {
    /// Reads a `GNSSAccumulatedDrivingGen2` of `size` bytes at the reader's position.
    pub fn parse_dyn_size(cursor: &mut Cursor, size: usize) -> (res: Result<GNSSAccumulatedDrivingGen2, ParseError>)
        ensures
            final(cursor).data() == old(cursor).data(),
            old(cursor).pos() <= final(cursor).pos(),
            final(cursor).pos() == GNSSAccumulatedDrivingGen2::dyn_end(old(cursor).data(), old(cursor).pos(), size as int),
            res is Ok <==> GNSSAccumulatedDrivingGen2::dyn_ok(old(cursor).data(), old(cursor).pos(), size as int),
            res matches Ok(v) ==> GNSSAccumulatedDrivingGen2::dyn_as(old(cursor).data(), old(cursor).pos(), size as int, v),
            res matches Err(e) ==> e == GNSSAccumulatedDrivingGen2::dyn_err(old(cursor).data(), old(cursor).pos(), size as int),
    {
        let mut inner = cursor.take_exact(size)?;
        let gnss_ad_pointer_newest_record = inner.read_u16_be()?;
        let ghost w = inner.data();
        let kept = parse_kept::<GNSSAccumulatedDrivingRecordGen2>(&mut inner, size / 18);
        let ghost s0 = kept@;
        let gnss_accumulated_driving_records = sort_by_time(kept, false);
        proof {
            assert(values_at(w, kept_positions::<GNSSAccumulatedDrivingRecordGen2>(w, 2, (size / 18) as nat), s0));
        }
        Ok(GNSSAccumulatedDrivingGen2 { gnss_ad_pointer_newest_record, gnss_accumulated_driving_records })
    }
}

impl ParseDyn for GNSSAccumulatedDrivingGen2 {
    open spec fn dyn_ok(d: Seq<u8>, p: int, size: int) -> bool {
        bytes_ok(d, p, size) && size >= 2
    }

    open spec fn dyn_end(d: Seq<u8>, p: int, size: int) -> int {
        bytes_end(d, p, size)
    }

    open spec fn dyn_err(d: Seq<u8>, p: int, size: int) -> ParseError {
        ParseError::UnexpectedEnd
    }

    open spec fn dyn_as(d: Seq<u8>, p: int, size: int, v: GNSSAccumulatedDrivingGen2) -> bool {
        let w = d.subrange(p, p + size);
        &&& v.gnss_ad_pointer_newest_record == be16(w, 0)
        &&& sorted_values_at(
            w,
            kept_positions::<GNSSAccumulatedDrivingRecordGen2>(w, 2, (size / 18) as nat),
            v.gnss_accumulated_driving_records@,
            false,
        )
    }

    fn parse_dyn_size(cursor: &mut Cursor, size: usize) -> (res: Result<GNSSAccumulatedDrivingGen2, ParseError>) {
        GNSSAccumulatedDrivingGen2::parse_dyn_size(cursor, size)
    }
}

/// DateOfDayDownloaded (appendix 2.57): the day of a downloaded activity record.
#[derive(Debug)]
pub struct DateOfDayDownloadedGen2 {
    pub value: TimeReal,
}

impl DateOfDayDownloadedGen2 {
    /// Reads a `DateOfDayDownloadedGen2` at the reader's position.
    pub fn parse(cursor: &mut Cursor) -> (res: Result<DateOfDayDownloadedGen2, ParseError>)
        ensures
            final(cursor).data() == old(cursor).data(),
            old(cursor).pos() <= final(cursor).pos(),
            final(cursor).pos() == DateOfDayDownloadedGen2::parse_end(old(cursor).data(), old(cursor).pos()),
            res is Ok <==> DateOfDayDownloadedGen2::parse_ok(old(cursor).data(), old(cursor).pos()),
            res matches Ok(v) ==> DateOfDayDownloadedGen2::parsed_as(old(cursor).data(), old(cursor).pos(), v),
            res matches Err(e) ==> e == DateOfDayDownloadedGen2::parse_err(old(cursor).data(), old(cursor).pos()),
    {
        let value = TimeReal::parse(cursor)?;
        Ok(DateOfDayDownloadedGen2 { value })
    }
}

impl Parse for DateOfDayDownloadedGen2 {
    open spec fn parse_ok(d: Seq<u8>, p: int) -> bool {
        TimeReal::parse_ok(d, p)
    }

    open spec fn parse_end(d: Seq<u8>, p: int) -> int {
        let p1 = TimeReal::parse_end(d, p);
        if !TimeReal::parse_ok(d, p) {
            p1
        } else {
            p1
        }
    }

    open spec fn parsed_as(d: Seq<u8>, p: int, v: DateOfDayDownloadedGen2) -> bool {
        TimeReal::parsed_as(d, p, v.value)
    }

    open spec fn parse_err(d: Seq<u8>, p: int) -> ParseError {
        if !TimeReal::parse_ok(d, p) {
            TimeReal::parse_err(d, p)
        } else {
            ParseError::InvalidValue
        }
    }

    fn parse(cursor: &mut Cursor) -> (res: Result<DateOfDayDownloadedGen2, ParseError>) {
        DateOfDayDownloadedGen2::parse(cursor)
    }
}

/// VuCardIWRecord (appendix 2.177) as generation 2 defines it.
#[derive(Debug)]
pub struct VuCardIWRecordGen2 {
    pub card_holder_name: HolderName,
    pub full_card_number_and_generation: FullCardNumberAndGenerationGen2,
    pub card_expiry_date: TimeReal,
    pub card_insertion_date: TimeReal,
    pub vehicle_odometer_value_at_insertion: OdometerShort,
    pub card_slot_number: CardSlotNumber,
    pub card_withdrawl_time: Option<TimeReal>,
    pub vehicle_odometer_value_at_withdrawal: OdometerShort,
    pub previous_vehicle_info: PreviousVehicleInfoGen2,
    pub manual_input_flag: ManualInputFlag,
}

impl VuCardIWRecordGen2 {
    /// Reads a `VuCardIWRecordGen2` at the reader's position.
    pub fn parse(cursor: &mut Cursor) -> (res: Result<VuCardIWRecordGen2, ParseError>)
        ensures
            final(cursor).data() == old(cursor).data(),
            old(cursor).pos() <= final(cursor).pos(),
            final(cursor).pos() == VuCardIWRecordGen2::parse_end(old(cursor).data(), old(cursor).pos()),
            res is Ok <==> VuCardIWRecordGen2::parse_ok(old(cursor).data(), old(cursor).pos()),
            res matches Ok(v) ==> VuCardIWRecordGen2::parsed_as(old(cursor).data(), old(cursor).pos(), v),
            res matches Err(e) ==> e == VuCardIWRecordGen2::parse_err(old(cursor).data(), old(cursor).pos()),
    {
        let card_holder_name = HolderName::parse(cursor)?;
        let full_card_number_and_generation = FullCardNumberAndGenerationGen2::parse(cursor)?;
        let card_expiry_date = TimeReal::parse(cursor)?;
        let card_insertion_date = TimeReal::parse(cursor)?;
        let vehicle_odometer_value_at_insertion = OdometerShort::parse(cursor)?;
        let card_slot_number = CardSlotNumber::parse(cursor)?;
        let card_withdrawl_time = parse_optional::<TimeReal>(cursor);
        let vehicle_odometer_value_at_withdrawal = OdometerShort::parse(cursor)?;
        let previous_vehicle_info = PreviousVehicleInfoGen2::parse(cursor)?;
        let manual_input_flag = ManualInputFlag::parse(cursor)?;
        Ok(VuCardIWRecordGen2 { card_holder_name, full_card_number_and_generation, card_expiry_date, card_insertion_date, vehicle_odometer_value_at_insertion, card_slot_number, card_withdrawl_time, vehicle_odometer_value_at_withdrawal, previous_vehicle_info, manual_input_flag })
    }
}

impl Parse for VuCardIWRecordGen2 {
    open spec fn parse_ok(d: Seq<u8>, p: int) -> bool {
        let p1 = HolderName::parse_end(d, p);
        let p2 = FullCardNumberAndGenerationGen2::parse_end(d, p1);
        let p3 = TimeReal::parse_end(d, p2);
        let p4 = TimeReal::parse_end(d, p3);
        let p5 = OdometerShort::parse_end(d, p4);
        let p6 = CardSlotNumber::parse_end(d, p5);
        let p7 = TimeReal::parse_end(d, p6);
        let p8 = OdometerShort::parse_end(d, p7);
        let p9 = PreviousVehicleInfoGen2::parse_end(d, p8);
        HolderName::parse_ok(d, p)
            && FullCardNumberAndGenerationGen2::parse_ok(d, p1)
            && TimeReal::parse_ok(d, p2)
            && TimeReal::parse_ok(d, p3)
            && OdometerShort::parse_ok(d, p4)
            && CardSlotNumber::parse_ok(d, p5)
            && OdometerShort::parse_ok(d, p7)
            && PreviousVehicleInfoGen2::parse_ok(d, p8)
            && ManualInputFlag::parse_ok(d, p9)
    }

    open spec fn parse_end(d: Seq<u8>, p: int) -> int {
        let p1 = HolderName::parse_end(d, p);
        let p2 = FullCardNumberAndGenerationGen2::parse_end(d, p1);
        let p3 = TimeReal::parse_end(d, p2);
        let p4 = TimeReal::parse_end(d, p3);
        let p5 = OdometerShort::parse_end(d, p4);
        let p6 = CardSlotNumber::parse_end(d, p5);
        let p7 = TimeReal::parse_end(d, p6);
        let p8 = OdometerShort::parse_end(d, p7);
        let p9 = PreviousVehicleInfoGen2::parse_end(d, p8);
        let p10 = ManualInputFlag::parse_end(d, p9);
        if !HolderName::parse_ok(d, p) {
            p1
        } else if !FullCardNumberAndGenerationGen2::parse_ok(d, p1) {
            p2
        } else if !TimeReal::parse_ok(d, p2) {
            p3
        } else if !TimeReal::parse_ok(d, p3) {
            p4
        } else if !OdometerShort::parse_ok(d, p4) {
            p5
        } else if !CardSlotNumber::parse_ok(d, p5) {
            p6
        } else if !OdometerShort::parse_ok(d, p7) {
            p8
        } else if !PreviousVehicleInfoGen2::parse_ok(d, p8) {
            p9
        } else if !ManualInputFlag::parse_ok(d, p9) {
            p10
        } else {
            p10
        }
    }

    open spec fn parsed_as(d: Seq<u8>, p: int, v: VuCardIWRecordGen2) -> bool {
        let p1 = HolderName::parse_end(d, p);
        let p2 = FullCardNumberAndGenerationGen2::parse_end(d, p1);
        let p3 = TimeReal::parse_end(d, p2);
        let p4 = TimeReal::parse_end(d, p3);
        let p5 = OdometerShort::parse_end(d, p4);
        let p6 = CardSlotNumber::parse_end(d, p5);
        let p7 = TimeReal::parse_end(d, p6);
        let p8 = OdometerShort::parse_end(d, p7);
        let p9 = PreviousVehicleInfoGen2::parse_end(d, p8);
        HolderName::parsed_as(d, p, v.card_holder_name)
            && FullCardNumberAndGenerationGen2::parsed_as(d, p1, v.full_card_number_and_generation)
            && TimeReal::parsed_as(d, p2, v.card_expiry_date)
            && TimeReal::parsed_as(d, p3, v.card_insertion_date)
            && OdometerShort::parsed_as(d, p4, v.vehicle_odometer_value_at_insertion)
            && CardSlotNumber::parsed_as(d, p5, v.card_slot_number)
            && optional_as::<TimeReal>(d, p6, v.card_withdrawl_time)
            && OdometerShort::parsed_as(d, p7, v.vehicle_odometer_value_at_withdrawal)
            && PreviousVehicleInfoGen2::parsed_as(d, p8, v.previous_vehicle_info)
            && ManualInputFlag::parsed_as(d, p9, v.manual_input_flag)
    }

    open spec fn parse_err(d: Seq<u8>, p: int) -> ParseError {
        let p1 = HolderName::parse_end(d, p);
        let p2 = FullCardNumberAndGenerationGen2::parse_end(d, p1);
        let p3 = TimeReal::parse_end(d, p2);
        let p4 = TimeReal::parse_end(d, p3);
        let p5 = OdometerShort::parse_end(d, p4);
        let p6 = CardSlotNumber::parse_end(d, p5);
        let p7 = TimeReal::parse_end(d, p6);
        let p8 = OdometerShort::parse_end(d, p7);
        let p9 = PreviousVehicleInfoGen2::parse_end(d, p8);
        if !HolderName::parse_ok(d, p) {
            HolderName::parse_err(d, p)
        } else if !FullCardNumberAndGenerationGen2::parse_ok(d, p1) {
            FullCardNumberAndGenerationGen2::parse_err(d, p1)
        } else if !TimeReal::parse_ok(d, p2) {
            TimeReal::parse_err(d, p2)
        } else if !TimeReal::parse_ok(d, p3) {
            TimeReal::parse_err(d, p3)
        } else if !OdometerShort::parse_ok(d, p4) {
            OdometerShort::parse_err(d, p4)
        } else if !CardSlotNumber::parse_ok(d, p5) {
            CardSlotNumber::parse_err(d, p5)
        } else if !OdometerShort::parse_ok(d, p7) {
            OdometerShort::parse_err(d, p7)
        } else if !PreviousVehicleInfoGen2::parse_ok(d, p8) {
            PreviousVehicleInfoGen2::parse_err(d, p8)
        } else if !ManualInputFlag::parse_ok(d, p9) {
            ManualInputFlag::parse_err(d, p9)
        } else {
            ParseError::InvalidValue
        }
    }

    fn parse(cursor: &mut Cursor) -> (res: Result<VuCardIWRecordGen2, ParseError>) {
        VuCardIWRecordGen2::parse(cursor)
    }
}

/// VuPlaceDailyWorkPeriodRecord (appendix 2.220) as generation 2 defines it.
#[derive(Debug)]
pub struct VuPlaceDailyWorkPeriodGen2 {
    pub full_card_number_and_generation: Option<FullCardNumberAndGenerationGen2>,
    pub place_record: PlaceRecordGen2,
}

impl VuPlaceDailyWorkPeriodGen2 {
    /// Reads a `VuPlaceDailyWorkPeriodGen2` at the reader's position.
    pub fn parse(cursor: &mut Cursor) -> (res: Result<VuPlaceDailyWorkPeriodGen2, ParseError>)
        ensures
            final(cursor).data() == old(cursor).data(),
            old(cursor).pos() <= final(cursor).pos(),
            final(cursor).pos() == VuPlaceDailyWorkPeriodGen2::parse_end(old(cursor).data(), old(cursor).pos()),
            res is Ok <==> VuPlaceDailyWorkPeriodGen2::parse_ok(old(cursor).data(), old(cursor).pos()),
            res matches Ok(v) ==> VuPlaceDailyWorkPeriodGen2::parsed_as(old(cursor).data(), old(cursor).pos(), v),
            res matches Err(e) ==> e == VuPlaceDailyWorkPeriodGen2::parse_err(old(cursor).data(), old(cursor).pos()),
    {
        let full_card_number_and_generation = parse_optional::<FullCardNumberAndGenerationGen2>(cursor);
        let place_record = PlaceRecordGen2::parse(cursor)?;
        Ok(VuPlaceDailyWorkPeriodGen2 { full_card_number_and_generation, place_record })
    }
}

impl Parse for VuPlaceDailyWorkPeriodGen2 {
    open spec fn parse_ok(d: Seq<u8>, p: int) -> bool {
        let p1 = FullCardNumberAndGenerationGen2::parse_end(d, p);
        PlaceRecordGen2::parse_ok(d, p1)
    }

    open spec fn parse_end(d: Seq<u8>, p: int) -> int {
        let p1 = FullCardNumberAndGenerationGen2::parse_end(d, p);
        let p2 = PlaceRecordGen2::parse_end(d, p1);
        if !PlaceRecordGen2::parse_ok(d, p1) {
            p2
        } else {
            p2
        }
    }

    open spec fn parsed_as(d: Seq<u8>, p: int, v: VuPlaceDailyWorkPeriodGen2) -> bool {
        let p1 = FullCardNumberAndGenerationGen2::parse_end(d, p);
        optional_as::<FullCardNumberAndGenerationGen2>(d, p, v.full_card_number_and_generation)
            && PlaceRecordGen2::parsed_as(d, p1, v.place_record)
    }

    open spec fn parse_err(d: Seq<u8>, p: int) -> ParseError {
        let p1 = FullCardNumberAndGenerationGen2::parse_end(d, p);
        if !PlaceRecordGen2::parse_ok(d, p1) {
            PlaceRecordGen2::parse_err(d, p1)
        } else {
            ParseError::InvalidValue
        }
    }

    fn parse(cursor: &mut Cursor) -> (res: Result<VuPlaceDailyWorkPeriodGen2, ParseError>) {
        VuPlaceDailyWorkPeriodGen2::parse(cursor)
    }
}

/// DateOfDayDownloaded records of a record array.
pub type DateOfDayDownloadedRecordArrayGen2 = Vec<DateOfDayDownloadedGen2>;

/// OdometerValueMidnight records of a record array.
pub type OdometerValueMidnightRecordArrayGen2 = Vec<OdometerValueMidnight>;

/// VuCardIWRecord records of a record array.
pub type VuCardIWRecordRecordArrayGen2 = Vec<VuCardIWRecordGen2>;

/// ActivityChangeInfo records of a record array.
pub type VuActivityDailyRecordArrayGen2 = Vec<ActivityChangeInfo>;

/// VuPlaceDailyWorkPeriodRecord records of a record array.
pub type VuPlaceDailyWorkPeriodRecordArrayGen2 = Vec<VuPlaceDailyWorkPeriodGen2>;

/// VuGNSSADRecord records of a record array.
pub type VuGNSSADRecordArrayGen2 = Vec<VuGNSSADRecordGen2>;

/// SpecificConditionRecord records of a record array.
pub type VuSpecificConditionRecordArrayGen2 = Vec<SpecificConditionRecordGen2>;

/// Signature records of a record array.
pub type SignatureRecordArrayGen2 = Vec<SignatureGen2>;

/// The activities block of a generation 2 vehicle unit download (TREP 22): eight record arrays.
#[derive(Debug)]
pub struct VuActivitiesBlockGen2 {
    pub date_of_day_downloaded_record_array: Vec<DateOfDayDownloadedGen2>,
    pub odometer_value_midnight_record_array: Vec<OdometerValueMidnight>,
    pub vu_card_iw_record_array: Vec<VuCardIWRecordGen2>,
    pub vu_activity_daily_record_array: Vec<ActivityChangeInfo>,
    pub vu_place_daily_work_period_record_array: Vec<VuPlaceDailyWorkPeriodGen2>,
    pub vu_gnss_ad_record_array: Vec<VuGNSSADRecordGen2>,
    pub vu_specific_condition_record_array: Vec<SpecificConditionRecordGen2>,
    pub signature_record_array: Vec<SignatureGen2>,
}

impl VuActivitiesBlockGen2 {
    /// Reads a `VuActivitiesBlockGen2` at the reader's position.
    pub fn parse(cursor: &mut Cursor) -> (res: Result<VuActivitiesBlockGen2, ParseError>)
        ensures
            final(cursor).data() == old(cursor).data(),
            old(cursor).pos() <= final(cursor).pos(),
            final(cursor).pos() == VuActivitiesBlockGen2::parse_end(old(cursor).data(), old(cursor).pos()),
            res is Ok <==> VuActivitiesBlockGen2::parse_ok(old(cursor).data(), old(cursor).pos()),
            res matches Ok(v) ==> VuActivitiesBlockGen2::parsed_as(old(cursor).data(), old(cursor).pos(), v),
            res matches Err(e) ==> e == VuActivitiesBlockGen2::parse_err(old(cursor).data(), old(cursor).pos()),
    {
        let date_of_day_downloaded_record_array = RecordArray::<DateOfDayDownloadedGen2>::parse(cursor)?.into_inner();
        let odometer_value_midnight_record_array = RecordArray::<OdometerValueMidnight>::parse(cursor)?.into_inner();
        let vu_card_iw_record_array = RecordArray::<VuCardIWRecordGen2>::parse(cursor)?.into_inner();
        let vu_activity_daily_record_array = RecordArray::<ActivityChangeInfo>::parse(cursor)?.into_inner();
        let vu_place_daily_work_period_record_array = RecordArray::<VuPlaceDailyWorkPeriodGen2>::parse(cursor)?.into_inner();
        let vu_gnss_ad_record_array = RecordArray::<VuGNSSADRecordGen2>::parse(cursor)?.into_inner();
        let vu_specific_condition_record_array = RecordArray::<SpecificConditionRecordGen2>::parse(cursor)?.into_inner();
        let signature_record_array = RecordArray::<SignatureGen2>::parse_dyn_size(cursor)?.into_inner();
        Ok(VuActivitiesBlockGen2 { date_of_day_downloaded_record_array, odometer_value_midnight_record_array, vu_card_iw_record_array, vu_activity_daily_record_array, vu_place_daily_work_period_record_array, vu_gnss_ad_record_array, vu_specific_condition_record_array, signature_record_array })
    }
}

impl Parse for VuActivitiesBlockGen2 {
    closed spec fn parse_ok(d: Seq<u8>, p: int) -> bool {
        let p1 = array_end(d, p);
        let p2 = array_end(d, p1);
        let p3 = array_end(d, p2);
        let p4 = array_end(d, p3);
        let p5 = array_end(d, p4);
        let p6 = array_end(d, p5);
        let p7 = array_end(d, p6);
        array_ok::<DateOfDayDownloadedGen2>(d, p)
            && array_ok::<OdometerValueMidnight>(d, p1)
            && array_ok::<VuCardIWRecordGen2>(d, p2)
            && array_ok::<ActivityChangeInfo>(d, p3)
            && array_ok::<VuPlaceDailyWorkPeriodGen2>(d, p4)
            && array_ok::<VuGNSSADRecordGen2>(d, p5)
            && array_ok::<SpecificConditionRecordGen2>(d, p6)
            && dyn_array_ok::<SignatureGen2>(d, p7)
    }

    closed spec fn parse_end(d: Seq<u8>, p: int) -> int {
        let p1 = array_end(d, p);
        let p2 = array_end(d, p1);
        let p3 = array_end(d, p2);
        let p4 = array_end(d, p3);
        let p5 = array_end(d, p4);
        let p6 = array_end(d, p5);
        let p7 = array_end(d, p6);
        let p8 = array_end(d, p7);
        if !array_ok::<DateOfDayDownloadedGen2>(d, p) {
            p1
        } else if !array_ok::<OdometerValueMidnight>(d, p1) {
            p2
        } else if !array_ok::<VuCardIWRecordGen2>(d, p2) {
            p3
        } else if !array_ok::<ActivityChangeInfo>(d, p3) {
            p4
        } else if !array_ok::<VuPlaceDailyWorkPeriodGen2>(d, p4) {
            p5
        } else if !array_ok::<VuGNSSADRecordGen2>(d, p5) {
            p6
        } else if !array_ok::<SpecificConditionRecordGen2>(d, p6) {
            p7
        } else if !dyn_array_ok::<SignatureGen2>(d, p7) {
            p8
        } else {
            p8
        }
    }

    closed spec fn parsed_as(d: Seq<u8>, p: int, v: VuActivitiesBlockGen2) -> bool {
        let p1 = array_end(d, p);
        let p2 = array_end(d, p1);
        let p3 = array_end(d, p2);
        let p4 = array_end(d, p3);
        let p5 = array_end(d, p4);
        let p6 = array_end(d, p5);
        let p7 = array_end(d, p6);
        array_as::<DateOfDayDownloadedGen2>(d, p, v.date_of_day_downloaded_record_array@)
            && array_as::<OdometerValueMidnight>(d, p1, v.odometer_value_midnight_record_array@)
            && array_as::<VuCardIWRecordGen2>(d, p2, v.vu_card_iw_record_array@)
            && array_as::<ActivityChangeInfo>(d, p3, v.vu_activity_daily_record_array@)
            && array_as::<VuPlaceDailyWorkPeriodGen2>(d, p4, v.vu_place_daily_work_period_record_array@)
            && array_as::<VuGNSSADRecordGen2>(d, p5, v.vu_gnss_ad_record_array@)
            && array_as::<SpecificConditionRecordGen2>(d, p6, v.vu_specific_condition_record_array@)
            && dyn_array_as::<SignatureGen2>(d, p7, v.signature_record_array@)
    }

    closed spec fn parse_err(d: Seq<u8>, p: int) -> ParseError {
        let p1 = array_end(d, p);
        let p2 = array_end(d, p1);
        let p3 = array_end(d, p2);
        let p4 = array_end(d, p3);
        let p5 = array_end(d, p4);
        let p6 = array_end(d, p5);
        let p7 = array_end(d, p6);
        if !array_ok::<DateOfDayDownloadedGen2>(d, p) {
            array_err::<DateOfDayDownloadedGen2>(d, p)
        } else if !array_ok::<OdometerValueMidnight>(d, p1) {
            array_err::<OdometerValueMidnight>(d, p1)
        } else if !array_ok::<VuCardIWRecordGen2>(d, p2) {
            array_err::<VuCardIWRecordGen2>(d, p2)
        } else if !array_ok::<ActivityChangeInfo>(d, p3) {
            array_err::<ActivityChangeInfo>(d, p3)
        } else if !array_ok::<VuPlaceDailyWorkPeriodGen2>(d, p4) {
            array_err::<VuPlaceDailyWorkPeriodGen2>(d, p4)
        } else if !array_ok::<VuGNSSADRecordGen2>(d, p5) {
            array_err::<VuGNSSADRecordGen2>(d, p5)
        } else if !array_ok::<SpecificConditionRecordGen2>(d, p6) {
            array_err::<SpecificConditionRecordGen2>(d, p6)
        } else if !dyn_array_ok::<SignatureGen2>(d, p7) {
            dyn_array_err::<SignatureGen2>(d, p7)
        } else {
            ParseError::InvalidValue
        }
    }

    fn parse(cursor: &mut Cursor) -> (res: Result<VuActivitiesBlockGen2, ParseError>) {
        VuActivitiesBlockGen2::parse(cursor)
    }
}

impl VuActivitiesBlockGen2 {
    /// What reading a `VuActivitiesBlockGen2` at position `p` of `d` means, spelled out
    /// for readers outside this module.
    pub proof fn lemma_parse_spec(d: Seq<u8>, p: int, v: VuActivitiesBlockGen2)
        ensures
            VuActivitiesBlockGen2::parse_ok(d, p) == ({
                let p1 = array_end(d, p);
                let p2 = array_end(d, p1);
                let p3 = array_end(d, p2);
                let p4 = array_end(d, p3);
                let p5 = array_end(d, p4);
                let p6 = array_end(d, p5);
                let p7 = array_end(d, p6);
                array_ok::<DateOfDayDownloadedGen2>(d, p)
            && array_ok::<OdometerValueMidnight>(d, p1)
            && array_ok::<VuCardIWRecordGen2>(d, p2)
            && array_ok::<ActivityChangeInfo>(d, p3)
            && array_ok::<VuPlaceDailyWorkPeriodGen2>(d, p4)
            && array_ok::<VuGNSSADRecordGen2>(d, p5)
            && array_ok::<SpecificConditionRecordGen2>(d, p6)
            && dyn_array_ok::<SignatureGen2>(d, p7)
            }),
            VuActivitiesBlockGen2::parse_end(d, p) == ({
                let p1 = array_end(d, p);
                let p2 = array_end(d, p1);
                let p3 = array_end(d, p2);
                let p4 = array_end(d, p3);
                let p5 = array_end(d, p4);
                let p6 = array_end(d, p5);
                let p7 = array_end(d, p6);
                let p8 = array_end(d, p7);
                if !array_ok::<DateOfDayDownloadedGen2>(d, p) {
            p1
        } else if !array_ok::<OdometerValueMidnight>(d, p1) {
            p2
        } else if !array_ok::<VuCardIWRecordGen2>(d, p2) {
            p3
        } else if !array_ok::<ActivityChangeInfo>(d, p3) {
            p4
        } else if !array_ok::<VuPlaceDailyWorkPeriodGen2>(d, p4) {
            p5
        } else if !array_ok::<VuGNSSADRecordGen2>(d, p5) {
            p6
        } else if !array_ok::<SpecificConditionRecordGen2>(d, p6) {
            p7
        } else if !dyn_array_ok::<SignatureGen2>(d, p7) {
            p8
        } else {
            p8
        }
            }),
            VuActivitiesBlockGen2::parsed_as(d, p, v) == ({
                let p1 = array_end(d, p);
                let p2 = array_end(d, p1);
                let p3 = array_end(d, p2);
                let p4 = array_end(d, p3);
                let p5 = array_end(d, p4);
                let p6 = array_end(d, p5);
                let p7 = array_end(d, p6);
                array_as::<DateOfDayDownloadedGen2>(d, p, v.date_of_day_downloaded_record_array@)
            && array_as::<OdometerValueMidnight>(d, p1, v.odometer_value_midnight_record_array@)
            && array_as::<VuCardIWRecordGen2>(d, p2, v.vu_card_iw_record_array@)
            && array_as::<ActivityChangeInfo>(d, p3, v.vu_activity_daily_record_array@)
            && array_as::<VuPlaceDailyWorkPeriodGen2>(d, p4, v.vu_place_daily_work_period_record_array@)
            && array_as::<VuGNSSADRecordGen2>(d, p5, v.vu_gnss_ad_record_array@)
            && array_as::<SpecificConditionRecordGen2>(d, p6, v.vu_specific_condition_record_array@)
            && dyn_array_as::<SignatureGen2>(d, p7, v.signature_record_array@)
            }),
            VuActivitiesBlockGen2::parse_err(d, p) == ({
                let p1 = array_end(d, p);
                let p2 = array_end(d, p1);
                let p3 = array_end(d, p2);
                let p4 = array_end(d, p3);
                let p5 = array_end(d, p4);
                let p6 = array_end(d, p5);
                let p7 = array_end(d, p6);
                if !array_ok::<DateOfDayDownloadedGen2>(d, p) {
            array_err::<DateOfDayDownloadedGen2>(d, p)
        } else if !array_ok::<OdometerValueMidnight>(d, p1) {
            array_err::<OdometerValueMidnight>(d, p1)
        } else if !array_ok::<VuCardIWRecordGen2>(d, p2) {
            array_err::<VuCardIWRecordGen2>(d, p2)
        } else if !array_ok::<ActivityChangeInfo>(d, p3) {
            array_err::<ActivityChangeInfo>(d, p3)
        } else if !array_ok::<VuPlaceDailyWorkPeriodGen2>(d, p4) {
            array_err::<VuPlaceDailyWorkPeriodGen2>(d, p4)
        } else if !array_ok::<VuGNSSADRecordGen2>(d, p5) {
            array_err::<VuGNSSADRecordGen2>(d, p5)
        } else if !array_ok::<SpecificConditionRecordGen2>(d, p6) {
            array_err::<SpecificConditionRecordGen2>(d, p6)
        } else if !dyn_array_ok::<SignatureGen2>(d, p7) {
            dyn_array_err::<SignatureGen2>(d, p7)
        } else {
            ParseError::InvalidValue
        }
            }),
    {
    }
}

/// VuIdentification (appendix 2.205) as generation 2 defines it.
#[derive(Debug)]
pub struct VuIdentificationGen2 {
    pub vu_manufacturer_name: VuManufacturerName,
    pub vu_manufacturer_address: VuManufacturerAddress,
    pub vu_part_number: VuPartNumber,
    pub vu_serial_number: VuSerialNumberGen2,
    pub vu_software_identification: VuSoftwareIdentification,
    pub vu_manufacturing_date: VuManufacturingDate,
    pub vu_approval_number: VuApprovalNumberGen2,
    pub vu_generation: GenerationGen2,
    pub vu_ability: VuAbilityGen2,
}

impl VuIdentificationGen2 {
    /// Reads a `VuIdentificationGen2` at the reader's position.
    pub fn parse(cursor: &mut Cursor) -> (res: Result<VuIdentificationGen2, ParseError>)
        ensures
            final(cursor).data() == old(cursor).data(),
            old(cursor).pos() <= final(cursor).pos(),
            final(cursor).pos() == VuIdentificationGen2::parse_end(old(cursor).data(), old(cursor).pos()),
            res is Ok <==> VuIdentificationGen2::parse_ok(old(cursor).data(), old(cursor).pos()),
            res matches Ok(v) ==> VuIdentificationGen2::parsed_as(old(cursor).data(), old(cursor).pos(), v),
            res matches Err(e) ==> e == VuIdentificationGen2::parse_err(old(cursor).data(), old(cursor).pos()),
    {
        let vu_manufacturer_name = VuManufacturerName::parse(cursor)?;
        let vu_manufacturer_address = VuManufacturerAddress::parse(cursor)?;
        let vu_part_number = VuPartNumber::parse(cursor)?;
        let vu_serial_number = VuSerialNumberGen2::parse(cursor)?;
        let vu_software_identification = VuSoftwareIdentification::parse(cursor)?;
        let vu_manufacturing_date = VuManufacturingDate::parse(cursor)?;
        let vu_approval_number = VuApprovalNumberGen2::parse(cursor)?;
        let vu_generation = GenerationGen2::parse(cursor)?;
        let vu_ability = VuAbilityGen2::parse(cursor)?;
        Ok(VuIdentificationGen2 { vu_manufacturer_name, vu_manufacturer_address, vu_part_number, vu_serial_number, vu_software_identification, vu_manufacturing_date, vu_approval_number, vu_generation, vu_ability })
    }
}

impl Parse for VuIdentificationGen2 {
    open spec fn parse_ok(d: Seq<u8>, p: int) -> bool {
        let p1 = VuManufacturerName::parse_end(d, p);
        let p2 = VuManufacturerAddress::parse_end(d, p1);
        let p3 = VuPartNumber::parse_end(d, p2);
        let p4 = VuSerialNumberGen2::parse_end(d, p3);
        let p5 = VuSoftwareIdentification::parse_end(d, p4);
        let p6 = VuManufacturingDate::parse_end(d, p5);
        let p7 = VuApprovalNumberGen2::parse_end(d, p6);
        let p8 = GenerationGen2::parse_end(d, p7);
        VuManufacturerName::parse_ok(d, p)
            && VuManufacturerAddress::parse_ok(d, p1)
            && VuPartNumber::parse_ok(d, p2)
            && VuSerialNumberGen2::parse_ok(d, p3)
            && VuSoftwareIdentification::parse_ok(d, p4)
            && VuManufacturingDate::parse_ok(d, p5)
            && VuApprovalNumberGen2::parse_ok(d, p6)
            && GenerationGen2::parse_ok(d, p7)
            && VuAbilityGen2::parse_ok(d, p8)
    }

    open spec fn parse_end(d: Seq<u8>, p: int) -> int {
        let p1 = VuManufacturerName::parse_end(d, p);
        let p2 = VuManufacturerAddress::parse_end(d, p1);
        let p3 = VuPartNumber::parse_end(d, p2);
        let p4 = VuSerialNumberGen2::parse_end(d, p3);
        let p5 = VuSoftwareIdentification::parse_end(d, p4);
        let p6 = VuManufacturingDate::parse_end(d, p5);
        let p7 = VuApprovalNumberGen2::parse_end(d, p6);
        let p8 = GenerationGen2::parse_end(d, p7);
        let p9 = VuAbilityGen2::parse_end(d, p8);
        if !VuManufacturerName::parse_ok(d, p) {
            p1
        } else if !VuManufacturerAddress::parse_ok(d, p1) {
            p2
        } else if !VuPartNumber::parse_ok(d, p2) {
            p3
        } else if !VuSerialNumberGen2::parse_ok(d, p3) {
            p4
        } else if !VuSoftwareIdentification::parse_ok(d, p4) {
            p5
        } else if !VuManufacturingDate::parse_ok(d, p5) {
            p6
        } else if !VuApprovalNumberGen2::parse_ok(d, p6) {
            p7
        } else if !GenerationGen2::parse_ok(d, p7) {
            p8
        } else if !VuAbilityGen2::parse_ok(d, p8) {
            p9
        } else {
            p9
        }
    }

    open spec fn parsed_as(d: Seq<u8>, p: int, v: VuIdentificationGen2) -> bool {
        let p1 = VuManufacturerName::parse_end(d, p);
        let p2 = VuManufacturerAddress::parse_end(d, p1);
        let p3 = VuPartNumber::parse_end(d, p2);
        let p4 = VuSerialNumberGen2::parse_end(d, p3);
        let p5 = VuSoftwareIdentification::parse_end(d, p4);
        let p6 = VuManufacturingDate::parse_end(d, p5);
        let p7 = VuApprovalNumberGen2::parse_end(d, p6);
        let p8 = GenerationGen2::parse_end(d, p7);
        VuManufacturerName::parsed_as(d, p, v.vu_manufacturer_name)
            && VuManufacturerAddress::parsed_as(d, p1, v.vu_manufacturer_address)
            && VuPartNumber::parsed_as(d, p2, v.vu_part_number)
            && VuSerialNumberGen2::parsed_as(d, p3, v.vu_serial_number)
            && VuSoftwareIdentification::parsed_as(d, p4, v.vu_software_identification)
            && VuManufacturingDate::parsed_as(d, p5, v.vu_manufacturing_date)
            && VuApprovalNumberGen2::parsed_as(d, p6, v.vu_approval_number)
            && GenerationGen2::parsed_as(d, p7, v.vu_generation)
            && VuAbilityGen2::parsed_as(d, p8, v.vu_ability)
    }

    open spec fn parse_err(d: Seq<u8>, p: int) -> ParseError {
        let p1 = VuManufacturerName::parse_end(d, p);
        let p2 = VuManufacturerAddress::parse_end(d, p1);
        let p3 = VuPartNumber::parse_end(d, p2);
        let p4 = VuSerialNumberGen2::parse_end(d, p3);
        let p5 = VuSoftwareIdentification::parse_end(d, p4);
        let p6 = VuManufacturingDate::parse_end(d, p5);
        let p7 = VuApprovalNumberGen2::parse_end(d, p6);
        let p8 = GenerationGen2::parse_end(d, p7);
        if !VuManufacturerName::parse_ok(d, p) {
            VuManufacturerName::parse_err(d, p)
        } else if !VuManufacturerAddress::parse_ok(d, p1) {
            VuManufacturerAddress::parse_err(d, p1)
        } else if !VuPartNumber::parse_ok(d, p2) {
            VuPartNumber::parse_err(d, p2)
        } else if !VuSerialNumberGen2::parse_ok(d, p3) {
            VuSerialNumberGen2::parse_err(d, p3)
        } else if !VuSoftwareIdentification::parse_ok(d, p4) {
            VuSoftwareIdentification::parse_err(d, p4)
        } else if !VuManufacturingDate::parse_ok(d, p5) {
            VuManufacturingDate::parse_err(d, p5)
        } else if !VuApprovalNumberGen2::parse_ok(d, p6) {
            VuApprovalNumberGen2::parse_err(d, p6)
        } else if !GenerationGen2::parse_ok(d, p7) {
            GenerationGen2::parse_err(d, p7)
        } else if !VuAbilityGen2::parse_ok(d, p8) {
            VuAbilityGen2::parse_err(d, p8)
        } else {
            ParseError::InvalidValue
        }
    }

    fn parse(cursor: &mut Cursor) -> (res: Result<VuIdentificationGen2, ParseError>) {
        VuIdentificationGen2::parse(cursor)
    }
}

/// SensorPairedRecord (appendix 2.144).
#[derive(Debug)]
pub struct SensorPairedRecordGen2 {
    pub sensor_serial_number: SensorSerialNumberGen2,
    pub sensor_approval_number: SensorApprovalNumberGen2,
    pub sensor_pairing_date: SensorPairingDate,
}

impl SensorPairedRecordGen2 {
    /// Reads a `SensorPairedRecordGen2` at the reader's position.
    pub fn parse(cursor: &mut Cursor) -> (res: Result<SensorPairedRecordGen2, ParseError>)
        ensures
            final(cursor).data() == old(cursor).data(),
            old(cursor).pos() <= final(cursor).pos(),
            final(cursor).pos() == SensorPairedRecordGen2::parse_end(old(cursor).data(), old(cursor).pos()),
            res is Ok <==> SensorPairedRecordGen2::parse_ok(old(cursor).data(), old(cursor).pos()),
            res matches Ok(v) ==> SensorPairedRecordGen2::parsed_as(old(cursor).data(), old(cursor).pos(), v),
            res matches Err(e) ==> e == SensorPairedRecordGen2::parse_err(old(cursor).data(), old(cursor).pos()),
    {
        let sensor_serial_number = SensorSerialNumberGen2::parse(cursor)?;
        let sensor_approval_number = SensorApprovalNumberGen2::parse(cursor)?;
        let sensor_pairing_date = SensorPairingDate::parse(cursor)?;
        Ok(SensorPairedRecordGen2 { sensor_serial_number, sensor_approval_number, sensor_pairing_date })
    }
}

impl Parse for SensorPairedRecordGen2 {
    open spec fn parse_ok(d: Seq<u8>, p: int) -> bool {
        let p1 = SensorSerialNumberGen2::parse_end(d, p);
        let p2 = SensorApprovalNumberGen2::parse_end(d, p1);
        SensorSerialNumberGen2::parse_ok(d, p)
            && SensorApprovalNumberGen2::parse_ok(d, p1)
            && SensorPairingDate::parse_ok(d, p2)
    }

    open spec fn parse_end(d: Seq<u8>, p: int) -> int {
        let p1 = SensorSerialNumberGen2::parse_end(d, p);
        let p2 = SensorApprovalNumberGen2::parse_end(d, p1);
        let p3 = SensorPairingDate::parse_end(d, p2);
        if !SensorSerialNumberGen2::parse_ok(d, p) {
            p1
        } else if !SensorApprovalNumberGen2::parse_ok(d, p1) {
            p2
        } else if !SensorPairingDate::parse_ok(d, p2) {
            p3
        } else {
            p3
        }
    }

    open spec fn parsed_as(d: Seq<u8>, p: int, v: SensorPairedRecordGen2) -> bool {
        let p1 = SensorSerialNumberGen2::parse_end(d, p);
        let p2 = SensorApprovalNumberGen2::parse_end(d, p1);
        SensorSerialNumberGen2::parsed_as(d, p, v.sensor_serial_number)
            && SensorApprovalNumberGen2::parsed_as(d, p1, v.sensor_approval_number)
            && SensorPairingDate::parsed_as(d, p2, v.sensor_pairing_date)
    }

    open spec fn parse_err(d: Seq<u8>, p: int) -> ParseError {
        let p1 = SensorSerialNumberGen2::parse_end(d, p);
        let p2 = SensorApprovalNumberGen2::parse_end(d, p1);
        if !SensorSerialNumberGen2::parse_ok(d, p) {
            SensorSerialNumberGen2::parse_err(d, p)
        } else if !SensorApprovalNumberGen2::parse_ok(d, p1) {
            SensorApprovalNumberGen2::parse_err(d, p1)
        } else if !SensorPairingDate::parse_ok(d, p2) {
            SensorPairingDate::parse_err(d, p2)
        } else {
            ParseError::InvalidValue
        }
    }

    fn parse(cursor: &mut Cursor) -> (res: Result<SensorPairedRecordGen2, ParseError>) {
        SensorPairedRecordGen2::parse(cursor)
    }
}

/// SensorExternalGNSSCoupledRecord (appendix 2.142).
#[derive(Debug)]
pub struct SensorExternalGNSSCoupledRecordGen2 {
    pub sensor_serial_number: SensorGNSSSerialNumber,
    pub sensor_approval_number: SensorExternalGNSSApprovalNumberGen2,
    pub sensor_coupling_date: SensorGNSSCouplingDate,
}

impl SensorExternalGNSSCoupledRecordGen2 {
    /// Reads a `SensorExternalGNSSCoupledRecordGen2` at the reader's position.
    pub fn parse(cursor: &mut Cursor) -> (res: Result<SensorExternalGNSSCoupledRecordGen2, ParseError>)
        ensures
            final(cursor).data() == old(cursor).data(),
            old(cursor).pos() <= final(cursor).pos(),
            final(cursor).pos() == SensorExternalGNSSCoupledRecordGen2::parse_end(old(cursor).data(), old(cursor).pos()),
            res is Ok <==> SensorExternalGNSSCoupledRecordGen2::parse_ok(old(cursor).data(), old(cursor).pos()),
            res matches Ok(v) ==> SensorExternalGNSSCoupledRecordGen2::parsed_as(old(cursor).data(), old(cursor).pos(), v),
            res matches Err(e) ==> e == SensorExternalGNSSCoupledRecordGen2::parse_err(old(cursor).data(), old(cursor).pos()),
    {
        let sensor_serial_number = SensorGNSSSerialNumber::parse(cursor)?;
        let sensor_approval_number = SensorExternalGNSSApprovalNumberGen2::parse(cursor)?;
        let sensor_coupling_date = SensorGNSSCouplingDate::parse(cursor)?;
        Ok(SensorExternalGNSSCoupledRecordGen2 { sensor_serial_number, sensor_approval_number, sensor_coupling_date })
    }
}

impl Parse for SensorExternalGNSSCoupledRecordGen2 {
    open spec fn parse_ok(d: Seq<u8>, p: int) -> bool {
        let p1 = SensorGNSSSerialNumber::parse_end(d, p);
        let p2 = SensorExternalGNSSApprovalNumberGen2::parse_end(d, p1);
        SensorGNSSSerialNumber::parse_ok(d, p)
            && SensorExternalGNSSApprovalNumberGen2::parse_ok(d, p1)
            && SensorGNSSCouplingDate::parse_ok(d, p2)
    }

    open spec fn parse_end(d: Seq<u8>, p: int) -> int {
        let p1 = SensorGNSSSerialNumber::parse_end(d, p);
        let p2 = SensorExternalGNSSApprovalNumberGen2::parse_end(d, p1);
        let p3 = SensorGNSSCouplingDate::parse_end(d, p2);
        if !SensorGNSSSerialNumber::parse_ok(d, p) {
            p1
        } else if !SensorExternalGNSSApprovalNumberGen2::parse_ok(d, p1) {
            p2
        } else if !SensorGNSSCouplingDate::parse_ok(d, p2) {
            p3
        } else {
            p3
        }
    }

    open spec fn parsed_as(d: Seq<u8>, p: int, v: SensorExternalGNSSCoupledRecordGen2) -> bool {
        let p1 = SensorGNSSSerialNumber::parse_end(d, p);
        let p2 = SensorExternalGNSSApprovalNumberGen2::parse_end(d, p1);
        SensorGNSSSerialNumber::parsed_as(d, p, v.sensor_serial_number)
            && SensorExternalGNSSApprovalNumberGen2::parsed_as(d, p1, v.sensor_approval_number)
            && SensorGNSSCouplingDate::parsed_as(d, p2, v.sensor_coupling_date)
    }

    open spec fn parse_err(d: Seq<u8>, p: int) -> ParseError {
        let p1 = SensorGNSSSerialNumber::parse_end(d, p);
        let p2 = SensorExternalGNSSApprovalNumberGen2::parse_end(d, p1);
        if !SensorGNSSSerialNumber::parse_ok(d, p) {
            SensorGNSSSerialNumber::parse_err(d, p)
        } else if !SensorExternalGNSSApprovalNumberGen2::parse_ok(d, p1) {
            SensorExternalGNSSApprovalNumberGen2::parse_err(d, p1)
        } else if !SensorGNSSCouplingDate::parse_ok(d, p2) {
            SensorGNSSCouplingDate::parse_err(d, p2)
        } else {
            ParseError::InvalidValue
        }
    }

    fn parse(cursor: &mut Cursor) -> (res: Result<SensorExternalGNSSCoupledRecordGen2, ParseError>) {
        SensorExternalGNSSCoupledRecordGen2::parse(cursor)
    }
}

/// VuCalibrationRecord (appendix 2.174) as generation 2 defines it.
#[derive(Debug)]
pub struct VuCalibrationRecordGen2 {
    pub calibration_purpose: CalibrationPurposeGen2,
    pub workshop_name: Name,
    pub workshop_address: Address,
    pub workshop_card_number: FullCardNumberGen2,
    pub workshop_card_expiry_date: Option<TimeReal>,
    pub vehicle_identification_number: Option<VehicleIdentificationNumber>,
    pub vehicle_registration_identification: Option<VehicleRegistrationIdentification>,
    pub w_vehicle_characteristic_constant: WVehicleCharacteristicConstant,
    pub k_constant_of_recording_equipment: KConstantOfRecordingEquipment,
    pub l_tyre_circumference: LTyreCircumference,
    pub tyre_size: TyreSize,
    pub authorised_speed: SpeedAuthorised,
    pub old_odometer_value: OdometerShort,
    pub new_odometer_value: OdometerShort,
    pub old_time_value: Option<TimeReal>,
    pub new_time_value: Option<TimeReal>,
    pub next_calibration_date: Option<TimeReal>,
    pub seal_data_vu: SealDataVuGen2,
}

impl VuCalibrationRecordGen2 {
    /// Reads a `VuCalibrationRecordGen2` at the reader's position.
    pub fn parse(cursor: &mut Cursor) -> (res: Result<VuCalibrationRecordGen2, ParseError>)
        ensures
            final(cursor).data() == old(cursor).data(),
            old(cursor).pos() <= final(cursor).pos(),
            final(cursor).pos() == VuCalibrationRecordGen2::parse_end(old(cursor).data(), old(cursor).pos()),
            res is Ok <==> VuCalibrationRecordGen2::parse_ok(old(cursor).data(), old(cursor).pos()),
            res matches Ok(v) ==> VuCalibrationRecordGen2::parsed_as(old(cursor).data(), old(cursor).pos(), v),
            res matches Err(e) ==> e == VuCalibrationRecordGen2::parse_err(old(cursor).data(), old(cursor).pos()),
    {
        let calibration_purpose = CalibrationPurposeGen2::parse(cursor)?;
        let workshop_name = Name::parse(cursor)?;
        let workshop_address = Address::parse(cursor)?;
        let workshop_card_number = FullCardNumberGen2::parse(cursor)?;
        let workshop_card_expiry_date = parse_optional::<TimeReal>(cursor);
        let vehicle_identification_number = parse_optional::<VehicleIdentificationNumber>(cursor);
        let vehicle_registration_identification = parse_optional::<VehicleRegistrationIdentification>(cursor);
        let w_vehicle_characteristic_constant = WVehicleCharacteristicConstant::parse(cursor)?;
        let k_constant_of_recording_equipment = KConstantOfRecordingEquipment::parse(cursor)?;
        let l_tyre_circumference = LTyreCircumference::parse(cursor)?;
        let tyre_size = TyreSize::parse(cursor)?;
        let authorised_speed = SpeedAuthorised::parse(cursor)?;
        let old_odometer_value = OdometerShort::parse(cursor)?;
        let new_odometer_value = OdometerShort::parse(cursor)?;
        let old_time_value = parse_optional::<TimeReal>(cursor);
        let new_time_value = parse_optional::<TimeReal>(cursor);
        let next_calibration_date = parse_optional::<TimeReal>(cursor);
        let seal_data_vu = SealDataVuGen2::parse(cursor)?;
        Ok(VuCalibrationRecordGen2 { calibration_purpose, workshop_name, workshop_address, workshop_card_number, workshop_card_expiry_date, vehicle_identification_number, vehicle_registration_identification, w_vehicle_characteristic_constant, k_constant_of_recording_equipment, l_tyre_circumference, tyre_size, authorised_speed, old_odometer_value, new_odometer_value, old_time_value, new_time_value, next_calibration_date, seal_data_vu })
    }
}

impl Parse for VuCalibrationRecordGen2 {
    open spec fn parse_ok(d: Seq<u8>, p: int) -> bool {
        let p1 = CalibrationPurposeGen2::parse_end(d, p);
        let p2 = Name::parse_end(d, p1);
        let p3 = Address::parse_end(d, p2);
        let p4 = FullCardNumberGen2::parse_end(d, p3);
        let p5 = TimeReal::parse_end(d, p4);
        let p6 = VehicleIdentificationNumber::parse_end(d, p5);
        let p7 = VehicleRegistrationIdentification::parse_end(d, p6);
        let p8 = WVehicleCharacteristicConstant::parse_end(d, p7);
        let p9 = KConstantOfRecordingEquipment::parse_end(d, p8);
        let p10 = LTyreCircumference::parse_end(d, p9);
        let p11 = TyreSize::parse_end(d, p10);
        let p12 = SpeedAuthorised::parse_end(d, p11);
        let p13 = OdometerShort::parse_end(d, p12);
        let p14 = OdometerShort::parse_end(d, p13);
        let p15 = TimeReal::parse_end(d, p14);
        let p16 = TimeReal::parse_end(d, p15);
        let p17 = TimeReal::parse_end(d, p16);
        CalibrationPurposeGen2::parse_ok(d, p)
            && Name::parse_ok(d, p1)
            && Address::parse_ok(d, p2)
            && FullCardNumberGen2::parse_ok(d, p3)
            && WVehicleCharacteristicConstant::parse_ok(d, p7)
            && KConstantOfRecordingEquipment::parse_ok(d, p8)
            && LTyreCircumference::parse_ok(d, p9)
            && TyreSize::parse_ok(d, p10)
            && SpeedAuthorised::parse_ok(d, p11)
            && OdometerShort::parse_ok(d, p12)
            && OdometerShort::parse_ok(d, p13)
            && SealDataVuGen2::parse_ok(d, p17)
    }

    open spec fn parse_end(d: Seq<u8>, p: int) -> int {
        let p1 = CalibrationPurposeGen2::parse_end(d, p);
        let p2 = Name::parse_end(d, p1);
        let p3 = Address::parse_end(d, p2);
        let p4 = FullCardNumberGen2::parse_end(d, p3);
        let p5 = TimeReal::parse_end(d, p4);
        let p6 = VehicleIdentificationNumber::parse_end(d, p5);
        let p7 = VehicleRegistrationIdentification::parse_end(d, p6);
        let p8 = WVehicleCharacteristicConstant::parse_end(d, p7);
        let p9 = KConstantOfRecordingEquipment::parse_end(d, p8);
        let p10 = LTyreCircumference::parse_end(d, p9);
        let p11 = TyreSize::parse_end(d, p10);
        let p12 = SpeedAuthorised::parse_end(d, p11);
        let p13 = OdometerShort::parse_end(d, p12);
        let p14 = OdometerShort::parse_end(d, p13);
        let p15 = TimeReal::parse_end(d, p14);
        let p16 = TimeReal::parse_end(d, p15);
        let p17 = TimeReal::parse_end(d, p16);
        let p18 = SealDataVuGen2::parse_end(d, p17);
        if !CalibrationPurposeGen2::parse_ok(d, p) {
            p1
        } else if !Name::parse_ok(d, p1) {
            p2
        } else if !Address::parse_ok(d, p2) {
            p3
        } else if !FullCardNumberGen2::parse_ok(d, p3) {
            p4
        } else if !WVehicleCharacteristicConstant::parse_ok(d, p7) {
            p8
        } else if !KConstantOfRecordingEquipment::parse_ok(d, p8) {
            p9
        } else if !LTyreCircumference::parse_ok(d, p9) {
            p10
        } else if !TyreSize::parse_ok(d, p10) {
            p11
        } else if !SpeedAuthorised::parse_ok(d, p11) {
            p12
        } else if !OdometerShort::parse_ok(d, p12) {
            p13
        } else if !OdometerShort::parse_ok(d, p13) {
            p14
        } else if !SealDataVuGen2::parse_ok(d, p17) {
            p18
        } else {
            p18
        }
    }

    open spec fn parsed_as(d: Seq<u8>, p: int, v: VuCalibrationRecordGen2) -> bool {
        let p1 = CalibrationPurposeGen2::parse_end(d, p);
        let p2 = Name::parse_end(d, p1);
        let p3 = Address::parse_end(d, p2);
        let p4 = FullCardNumberGen2::parse_end(d, p3);
        let p5 = TimeReal::parse_end(d, p4);
        let p6 = VehicleIdentificationNumber::parse_end(d, p5);
        let p7 = VehicleRegistrationIdentification::parse_end(d, p6);
        let p8 = WVehicleCharacteristicConstant::parse_end(d, p7);
        let p9 = KConstantOfRecordingEquipment::parse_end(d, p8);
        let p10 = LTyreCircumference::parse_end(d, p9);
        let p11 = TyreSize::parse_end(d, p10);
        let p12 = SpeedAuthorised::parse_end(d, p11);
        let p13 = OdometerShort::parse_end(d, p12);
        let p14 = OdometerShort::parse_end(d, p13);
        let p15 = TimeReal::parse_end(d, p14);
        let p16 = TimeReal::parse_end(d, p15);
        let p17 = TimeReal::parse_end(d, p16);
        CalibrationPurposeGen2::parsed_as(d, p, v.calibration_purpose)
            && Name::parsed_as(d, p1, v.workshop_name)
            && Address::parsed_as(d, p2, v.workshop_address)
            && FullCardNumberGen2::parsed_as(d, p3, v.workshop_card_number)
            && optional_as::<TimeReal>(d, p4, v.workshop_card_expiry_date)
            && optional_as::<VehicleIdentificationNumber>(d, p5, v.vehicle_identification_number)
            && optional_as::<VehicleRegistrationIdentification>(d, p6, v.vehicle_registration_identification)
            && WVehicleCharacteristicConstant::parsed_as(d, p7, v.w_vehicle_characteristic_constant)
            && KConstantOfRecordingEquipment::parsed_as(d, p8, v.k_constant_of_recording_equipment)
            && LTyreCircumference::parsed_as(d, p9, v.l_tyre_circumference)
            && TyreSize::parsed_as(d, p10, v.tyre_size)
            && SpeedAuthorised::parsed_as(d, p11, v.authorised_speed)
            && OdometerShort::parsed_as(d, p12, v.old_odometer_value)
            && OdometerShort::parsed_as(d, p13, v.new_odometer_value)
            && optional_as::<TimeReal>(d, p14, v.old_time_value)
            && optional_as::<TimeReal>(d, p15, v.new_time_value)
            && optional_as::<TimeReal>(d, p16, v.next_calibration_date)
            && SealDataVuGen2::parsed_as(d, p17, v.seal_data_vu)
    }

    open spec fn parse_err(d: Seq<u8>, p: int) -> ParseError {
        let p1 = CalibrationPurposeGen2::parse_end(d, p);
        let p2 = Name::parse_end(d, p1);
        let p3 = Address::parse_end(d, p2);
        let p4 = FullCardNumberGen2::parse_end(d, p3);
        let p5 = TimeReal::parse_end(d, p4);
        let p6 = VehicleIdentificationNumber::parse_end(d, p5);
        let p7 = VehicleRegistrationIdentification::parse_end(d, p6);
        let p8 = WVehicleCharacteristicConstant::parse_end(d, p7);
        let p9 = KConstantOfRecordingEquipment::parse_end(d, p8);
        let p10 = LTyreCircumference::parse_end(d, p9);
        let p11 = TyreSize::parse_end(d, p10);
        let p12 = SpeedAuthorised::parse_end(d, p11);
        let p13 = OdometerShort::parse_end(d, p12);
        let p14 = OdometerShort::parse_end(d, p13);
        let p15 = TimeReal::parse_end(d, p14);
        let p16 = TimeReal::parse_end(d, p15);
        let p17 = TimeReal::parse_end(d, p16);
        if !CalibrationPurposeGen2::parse_ok(d, p) {
            CalibrationPurposeGen2::parse_err(d, p)
        } else if !Name::parse_ok(d, p1) {
            Name::parse_err(d, p1)
        } else if !Address::parse_ok(d, p2) {
            Address::parse_err(d, p2)
        } else if !FullCardNumberGen2::parse_ok(d, p3) {
            FullCardNumberGen2::parse_err(d, p3)
        } else if !WVehicleCharacteristicConstant::parse_ok(d, p7) {
            WVehicleCharacteristicConstant::parse_err(d, p7)
        } else if !KConstantOfRecordingEquipment::parse_ok(d, p8) {
            KConstantOfRecordingEquipment::parse_err(d, p8)
        } else if !LTyreCircumference::parse_ok(d, p9) {
            LTyreCircumference::parse_err(d, p9)
        } else if !TyreSize::parse_ok(d, p10) {
            TyreSize::parse_err(d, p10)
        } else if !SpeedAuthorised::parse_ok(d, p11) {
            SpeedAuthorised::parse_err(d, p11)
        } else if !OdometerShort::parse_ok(d, p12) {
            OdometerShort::parse_err(d, p12)
        } else if !OdometerShort::parse_ok(d, p13) {
            OdometerShort::parse_err(d, p13)
        } else if !SealDataVuGen2::parse_ok(d, p17) {
            SealDataVuGen2::parse_err(d, p17)
        } else {
            ParseError::InvalidValue
        }
    }

    fn parse(cursor: &mut Cursor) -> (res: Result<VuCalibrationRecordGen2, ParseError>) {
        VuCalibrationRecordGen2::parse(cursor)
    }
}

impl VuCardRecordGen2 {
    /// The card number that follows a card number and generation: present
    /// exactly when that was read, and then read as the card type says.
    pub open spec fn card_number_as(present: bool, t: Option<EquipmentTypeGen2>, d: Seq<u8>, pos: int, v: Option<CardNumber>) -> bool {
        if !present {
            v is None
        } else {
            v matches Some(c) && match t {
                Some(EquipmentTypeGen2::DriverCard) => CardNumber::driver_as(d, pos, c),
                Some(EquipmentTypeGen2::WorkshopCard) => CardNumber::owner_as(d, pos, c),
                _ => c is Unknown,
            }
        }
    }

    fn parse_card_number(info: &Option<FullCardNumberAndGenerationGen2>, cursor: &mut Cursor) -> (res: Result<Option<CardNumber>, ParseError>)
        ensures
            final(cursor).data() == old(cursor).data(),
            old(cursor).pos() <= final(cursor).pos(),
            final(cursor).pos() == if info is Some {
                bytes_end(old(cursor).data(), old(cursor).pos(), 16)
            } else {
                old(cursor).pos()
            },
            res is Ok <==> (info is None || bytes_ok(old(cursor).data(), old(cursor).pos(), 16)),
            res matches Err(e) ==> e == ParseError::UnexpectedEnd,
            res matches Ok(v) ==> VuCardRecordGen2::card_number_as(
                info is Some,
                match info {
                    Some(i) => Some(i.full_card_number.card_type),
                    None => None,
                },
                old(cursor).data(),
                old(cursor).pos(),
                v,
            ),
    {
        match info {
            Some(i) => match i.full_card_number.card_type {
                EquipmentTypeGen2::DriverCard => Ok(Some(CardNumber::parse_driver(cursor)?)),
                EquipmentTypeGen2::WorkshopCard => Ok(Some(CardNumber::parse_owner(cursor)?)),
                _ => Ok(Some(CardNumber::parse_unknown(cursor)?)),
            },
            None => Ok(None),
        }
    }
}

/// VuCardRecord (appendix 2.179): a card that was inserted, with its card number when its number and generation were read.
#[derive(Debug)]
pub struct VuCardRecordGen2 {
    pub card_number_and_generation_information: Option<FullCardNumberAndGenerationGen2>,
    pub card_extended_serial_number: ExtendedSerialNumberGen2,
    pub card_structure_version: CardStructureVersion,
    pub card_number: Option<CardNumber>,
}

impl VuCardRecordGen2 {
    /// Reads a `VuCardRecordGen2` at the reader's position.
    pub fn parse(cursor: &mut Cursor) -> (res: Result<VuCardRecordGen2, ParseError>)
        ensures
            final(cursor).data() == old(cursor).data(),
            old(cursor).pos() <= final(cursor).pos(),
            final(cursor).pos() == VuCardRecordGen2::parse_end(old(cursor).data(), old(cursor).pos()),
            res is Ok <==> VuCardRecordGen2::parse_ok(old(cursor).data(), old(cursor).pos()),
            res matches Ok(v) ==> VuCardRecordGen2::parsed_as(old(cursor).data(), old(cursor).pos(), v),
            res matches Err(e) ==> e == VuCardRecordGen2::parse_err(old(cursor).data(), old(cursor).pos()),
    {
        let card_number_and_generation_information = parse_optional::<FullCardNumberAndGenerationGen2>(cursor);
        let card_extended_serial_number = ExtendedSerialNumberGen2::parse(cursor)?;
        let card_structure_version = CardStructureVersion::parse(cursor)?;
        let card_number = VuCardRecordGen2::parse_card_number(&card_number_and_generation_information, cursor)?;
        Ok(VuCardRecordGen2 { card_number_and_generation_information, card_extended_serial_number, card_structure_version, card_number })
    }
}

impl Parse for VuCardRecordGen2 {
    open spec fn parse_ok(d: Seq<u8>, p: int) -> bool {
        let p1 = FullCardNumberAndGenerationGen2::parse_end(d, p);
        let p2 = ExtendedSerialNumberGen2::parse_end(d, p1);
        let p3 = CardStructureVersion::parse_end(d, p2);
        ExtendedSerialNumberGen2::parse_ok(d, p1)
            && CardStructureVersion::parse_ok(d, p2)
            && (!FullCardNumberAndGenerationGen2::parse_ok(d, p) || bytes_ok(d, p3, 16))
    }

    open spec fn parse_end(d: Seq<u8>, p: int) -> int {
        let p1 = FullCardNumberAndGenerationGen2::parse_end(d, p);
        let p2 = ExtendedSerialNumberGen2::parse_end(d, p1);
        let p3 = CardStructureVersion::parse_end(d, p2);
        let p4 = (if FullCardNumberAndGenerationGen2::parse_ok(d, p) { bytes_end(d, p3, 16) } else { p3 });
        if !ExtendedSerialNumberGen2::parse_ok(d, p1) {
            p2
        } else if !CardStructureVersion::parse_ok(d, p2) {
            p3
        } else if !((!FullCardNumberAndGenerationGen2::parse_ok(d, p) || bytes_ok(d, p3, 16))) {
            p4
        } else {
            p4
        }
    }

    open spec fn parsed_as(d: Seq<u8>, p: int, v: VuCardRecordGen2) -> bool {
        let p1 = FullCardNumberAndGenerationGen2::parse_end(d, p);
        let p2 = ExtendedSerialNumberGen2::parse_end(d, p1);
        let p3 = CardStructureVersion::parse_end(d, p2);
        optional_as::<FullCardNumberAndGenerationGen2>(d, p, v.card_number_and_generation_information)
            && ExtendedSerialNumberGen2::parsed_as(d, p1, v.card_extended_serial_number)
            && CardStructureVersion::parsed_as(d, p2, v.card_structure_version)
            && VuCardRecordGen2::card_number_as(FullCardNumberAndGenerationGen2::parse_ok(d, p), EquipmentTypeGen2::from_byte(d[p]), d, p3, v.card_number)
    }

    open spec fn parse_err(d: Seq<u8>, p: int) -> ParseError {
        let p1 = FullCardNumberAndGenerationGen2::parse_end(d, p);
        let p2 = ExtendedSerialNumberGen2::parse_end(d, p1);
        let p3 = CardStructureVersion::parse_end(d, p2);
        if !ExtendedSerialNumberGen2::parse_ok(d, p1) {
            ExtendedSerialNumberGen2::parse_err(d, p1)
        } else if !CardStructureVersion::parse_ok(d, p2) {
            CardStructureVersion::parse_err(d, p2)
        } else if !((!FullCardNumberAndGenerationGen2::parse_ok(d, p) || bytes_ok(d, p3, 16))) {
            ParseError::UnexpectedEnd
        } else {
            ParseError::InvalidValue
        }
    }

    fn parse(cursor: &mut Cursor) -> (res: Result<VuCardRecordGen2, ParseError>) {
        VuCardRecordGen2::parse(cursor)
    }
}

/// VuITSConsentRecord (appendix 2.208).
#[derive(Debug)]
pub struct VuITSConsentRecordGen2 {
    pub card_number_and_gen: Option<FullCardNumberAndGenerationGen2>,
    pub consent: bool,
}

impl VuITSConsentRecordGen2 {
    /// Reads a `VuITSConsentRecordGen2` at the reader's position.
    pub fn parse(cursor: &mut Cursor) -> (res: Result<VuITSConsentRecordGen2, ParseError>)
        ensures
            final(cursor).data() == old(cursor).data(),
            old(cursor).pos() <= final(cursor).pos(),
            final(cursor).pos() == VuITSConsentRecordGen2::parse_end(old(cursor).data(), old(cursor).pos()),
            res is Ok <==> VuITSConsentRecordGen2::parse_ok(old(cursor).data(), old(cursor).pos()),
            res matches Ok(v) ==> VuITSConsentRecordGen2::parsed_as(old(cursor).data(), old(cursor).pos(), v),
            res matches Err(e) ==> e == VuITSConsentRecordGen2::parse_err(old(cursor).data(), old(cursor).pos()),
    {
        let card_number_and_gen = parse_optional::<FullCardNumberAndGenerationGen2>(cursor);
        let consent = cursor.read_u8()? != 0;
        Ok(VuITSConsentRecordGen2 { card_number_and_gen, consent })
    }
}

impl Parse for VuITSConsentRecordGen2 {
    open spec fn parse_ok(d: Seq<u8>, p: int) -> bool {
        let p1 = FullCardNumberAndGenerationGen2::parse_end(d, p);
        bytes_ok(d, p1, 1)
    }

    open spec fn parse_end(d: Seq<u8>, p: int) -> int {
        let p1 = FullCardNumberAndGenerationGen2::parse_end(d, p);
        let p2 = bytes_end(d, p1, 1);
        if !bytes_ok(d, p1, 1) {
            p2
        } else {
            p2
        }
    }

    open spec fn parsed_as(d: Seq<u8>, p: int, v: VuITSConsentRecordGen2) -> bool {
        let p1 = FullCardNumberAndGenerationGen2::parse_end(d, p);
        optional_as::<FullCardNumberAndGenerationGen2>(d, p, v.card_number_and_gen)
            && v.consent == (d[p1] != 0)
    }

    open spec fn parse_err(d: Seq<u8>, p: int) -> ParseError {
        let p1 = FullCardNumberAndGenerationGen2::parse_end(d, p);
        if !bytes_ok(d, p1, 1) {
            ParseError::UnexpectedEnd
        } else {
            ParseError::InvalidValue
        }
    }

    fn parse(cursor: &mut Cursor) -> (res: Result<VuITSConsentRecordGen2, ParseError>) {
        VuITSConsentRecordGen2::parse(cursor)
    }
}

/// VuPowerSupplyInterruptionRecord (appendix 2.240).
#[derive(Debug)]
pub struct VuPowerSupplyInterruptionRecordGen2 {
    pub event_type: EventFaultTypeGen2,
    pub event_record_purpose: EventFaultRecordPurpose,
    pub event_begin_time: TimeReal,
    pub event_end_time: TimeReal,
    pub card_number_and_gen_driver_slot_begin: Option<FullCardNumberAndGenerationGen2>,
    pub card_number_and_gen_driver_slot_end: Option<FullCardNumberAndGenerationGen2>,
    pub card_number_and_gen_codriver_slot_begin: Option<FullCardNumberAndGenerationGen2>,
    pub card_number_and_gen_codriver_slot_end: Option<FullCardNumberAndGenerationGen2>,
    pub similar_events_number: SimilarEventsNumber,
}

impl VuPowerSupplyInterruptionRecordGen2 {
    /// Reads a `VuPowerSupplyInterruptionRecordGen2` at the reader's position.
    pub fn parse(cursor: &mut Cursor) -> (res: Result<VuPowerSupplyInterruptionRecordGen2, ParseError>)
        ensures
            final(cursor).data() == old(cursor).data(),
            old(cursor).pos() <= final(cursor).pos(),
            final(cursor).pos() == VuPowerSupplyInterruptionRecordGen2::parse_end(old(cursor).data(), old(cursor).pos()),
            res is Ok <==> VuPowerSupplyInterruptionRecordGen2::parse_ok(old(cursor).data(), old(cursor).pos()),
            res matches Ok(v) ==> VuPowerSupplyInterruptionRecordGen2::parsed_as(old(cursor).data(), old(cursor).pos(), v),
            res matches Err(e) ==> e == VuPowerSupplyInterruptionRecordGen2::parse_err(old(cursor).data(), old(cursor).pos()),
    {
        let event_type = EventFaultTypeGen2::parse(cursor)?;
        let event_record_purpose = EventFaultRecordPurpose::parse(cursor)?;
        let event_begin_time = TimeReal::parse(cursor)?;
        let event_end_time = TimeReal::parse(cursor)?;
        let card_number_and_gen_driver_slot_begin = parse_optional::<FullCardNumberAndGenerationGen2>(cursor);
        let card_number_and_gen_driver_slot_end = parse_optional::<FullCardNumberAndGenerationGen2>(cursor);
        let card_number_and_gen_codriver_slot_begin = parse_optional::<FullCardNumberAndGenerationGen2>(cursor);
        let card_number_and_gen_codriver_slot_end = parse_optional::<FullCardNumberAndGenerationGen2>(cursor);
        let similar_events_number = SimilarEventsNumber::parse(cursor)?;
        Ok(VuPowerSupplyInterruptionRecordGen2 { event_type, event_record_purpose, event_begin_time, event_end_time, card_number_and_gen_driver_slot_begin, card_number_and_gen_driver_slot_end, card_number_and_gen_codriver_slot_begin, card_number_and_gen_codriver_slot_end, similar_events_number })
    }
}

impl Parse for VuPowerSupplyInterruptionRecordGen2 {
    open spec fn parse_ok(d: Seq<u8>, p: int) -> bool {
        let p1 = EventFaultTypeGen2::parse_end(d, p);
        let p2 = EventFaultRecordPurpose::parse_end(d, p1);
        let p3 = TimeReal::parse_end(d, p2);
        let p4 = TimeReal::parse_end(d, p3);
        let p5 = FullCardNumberAndGenerationGen2::parse_end(d, p4);
        let p6 = FullCardNumberAndGenerationGen2::parse_end(d, p5);
        let p7 = FullCardNumberAndGenerationGen2::parse_end(d, p6);
        let p8 = FullCardNumberAndGenerationGen2::parse_end(d, p7);
        EventFaultTypeGen2::parse_ok(d, p)
            && EventFaultRecordPurpose::parse_ok(d, p1)
            && TimeReal::parse_ok(d, p2)
            && TimeReal::parse_ok(d, p3)
            && SimilarEventsNumber::parse_ok(d, p8)
    }

    open spec fn parse_end(d: Seq<u8>, p: int) -> int {
        let p1 = EventFaultTypeGen2::parse_end(d, p);
        let p2 = EventFaultRecordPurpose::parse_end(d, p1);
        let p3 = TimeReal::parse_end(d, p2);
        let p4 = TimeReal::parse_end(d, p3);
        let p5 = FullCardNumberAndGenerationGen2::parse_end(d, p4);
        let p6 = FullCardNumberAndGenerationGen2::parse_end(d, p5);
        let p7 = FullCardNumberAndGenerationGen2::parse_end(d, p6);
        let p8 = FullCardNumberAndGenerationGen2::parse_end(d, p7);
        let p9 = SimilarEventsNumber::parse_end(d, p8);
        if !EventFaultTypeGen2::parse_ok(d, p) {
            p1
        } else if !EventFaultRecordPurpose::parse_ok(d, p1) {
            p2
        } else if !TimeReal::parse_ok(d, p2) {
            p3
        } else if !TimeReal::parse_ok(d, p3) {
            p4
        } else if !SimilarEventsNumber::parse_ok(d, p8) {
            p9
        } else {
            p9
        }
    }

    open spec fn parsed_as(d: Seq<u8>, p: int, v: VuPowerSupplyInterruptionRecordGen2) -> bool {
        let p1 = EventFaultTypeGen2::parse_end(d, p);
        let p2 = EventFaultRecordPurpose::parse_end(d, p1);
        let p3 = TimeReal::parse_end(d, p2);
        let p4 = TimeReal::parse_end(d, p3);
        let p5 = FullCardNumberAndGenerationGen2::parse_end(d, p4);
        let p6 = FullCardNumberAndGenerationGen2::parse_end(d, p5);
        let p7 = FullCardNumberAndGenerationGen2::parse_end(d, p6);
        let p8 = FullCardNumberAndGenerationGen2::parse_end(d, p7);
        EventFaultTypeGen2::parsed_as(d, p, v.event_type)
            && EventFaultRecordPurpose::parsed_as(d, p1, v.event_record_purpose)
            && TimeReal::parsed_as(d, p2, v.event_begin_time)
            && TimeReal::parsed_as(d, p3, v.event_end_time)
            && optional_as::<FullCardNumberAndGenerationGen2>(d, p4, v.card_number_and_gen_driver_slot_begin)
            && optional_as::<FullCardNumberAndGenerationGen2>(d, p5, v.card_number_and_gen_driver_slot_end)
            && optional_as::<FullCardNumberAndGenerationGen2>(d, p6, v.card_number_and_gen_codriver_slot_begin)
            && optional_as::<FullCardNumberAndGenerationGen2>(d, p7, v.card_number_and_gen_codriver_slot_end)
            && SimilarEventsNumber::parsed_as(d, p8, v.similar_events_number)
    }

    open spec fn parse_err(d: Seq<u8>, p: int) -> ParseError {
        let p1 = EventFaultTypeGen2::parse_end(d, p);
        let p2 = EventFaultRecordPurpose::parse_end(d, p1);
        let p3 = TimeReal::parse_end(d, p2);
        let p4 = TimeReal::parse_end(d, p3);
        let p5 = FullCardNumberAndGenerationGen2::parse_end(d, p4);
        let p6 = FullCardNumberAndGenerationGen2::parse_end(d, p5);
        let p7 = FullCardNumberAndGenerationGen2::parse_end(d, p6);
        let p8 = FullCardNumberAndGenerationGen2::parse_end(d, p7);
        if !EventFaultTypeGen2::parse_ok(d, p) {
            EventFaultTypeGen2::parse_err(d, p)
        } else if !EventFaultRecordPurpose::parse_ok(d, p1) {
            EventFaultRecordPurpose::parse_err(d, p1)
        } else if !TimeReal::parse_ok(d, p2) {
            TimeReal::parse_err(d, p2)
        } else if !TimeReal::parse_ok(d, p3) {
            TimeReal::parse_err(d, p3)
        } else if !SimilarEventsNumber::parse_ok(d, p8) {
            SimilarEventsNumber::parse_err(d, p8)
        } else {
            ParseError::InvalidValue
        }
    }

    fn parse(cursor: &mut Cursor) -> (res: Result<VuPowerSupplyInterruptionRecordGen2, ParseError>) {
        VuPowerSupplyInterruptionRecordGen2::parse(cursor)
    }
}

/// VuIdentification records of a record array.
pub type VuIdentificationRecordArrayGen2 = Vec<VuIdentificationGen2>;

/// SensorPairedRecord records of a record array.
pub type VuSensorPairedRecordArrayGen2 = Vec<SensorPairedRecordGen2>;

/// SensorExternalGNSSCoupledRecord records of a record array.
pub type VuSensorExternalGNSSCoupledRecordArrayGen2 = Vec<SensorExternalGNSSCoupledRecordGen2>;

/// VuCalibrationRecord records of a record array.
pub type VuCalibrationRecordArrayGen2 = Vec<VuCalibrationRecordGen2>;

/// VuCardRecord records of a record array.
pub type VuCardRecordArrayGen2 = Vec<VuCardRecordGen2>;

/// VuITSConsentRecord records of a record array.
pub type VuITSConsentRecordArrayGen2 = Vec<VuITSConsentRecordGen2>;

/// VuPowerSupplyInterruptionRecord records of a record array.
pub type VuPowerSupplyInterruptionRecordArrayGen2 = Vec<VuPowerSupplyInterruptionRecordGen2>;

/// The technical data block of a generation 2 vehicle unit download (TREP 25): eight record arrays.
#[derive(Debug)]
pub struct VuCompanyLocksBlockGen2 {
    pub vu_identification_record_array: Vec<VuIdentificationGen2>,
    pub vu_sensor_paired_record_array: Vec<SensorPairedRecordGen2>,
    pub vu_sensor_external_gnss_coupled_record_array: Vec<SensorExternalGNSSCoupledRecordGen2>,
    pub vu_calibration_record_array: Vec<VuCalibrationRecordGen2>,
    pub vu_card_record_array: Vec<VuCardRecordGen2>,
    pub vu_its_consent_record_array: Vec<VuITSConsentRecordGen2>,
    pub vu_power_supply_interruption_record_array: Vec<VuPowerSupplyInterruptionRecordGen2>,
    pub signature_record_array: Vec<SignatureGen2>,
}

impl VuCompanyLocksBlockGen2 {
    /// Reads a `VuCompanyLocksBlockGen2` at the reader's position.
    pub fn parse(cursor: &mut Cursor) -> (res: Result<VuCompanyLocksBlockGen2, ParseError>)
        ensures
            final(cursor).data() == old(cursor).data(),
            old(cursor).pos() <= final(cursor).pos(),
            final(cursor).pos() == VuCompanyLocksBlockGen2::parse_end(old(cursor).data(), old(cursor).pos()),
            res is Ok <==> VuCompanyLocksBlockGen2::parse_ok(old(cursor).data(), old(cursor).pos()),
            res matches Ok(v) ==> VuCompanyLocksBlockGen2::parsed_as(old(cursor).data(), old(cursor).pos(), v),
            res matches Err(e) ==> e == VuCompanyLocksBlockGen2::parse_err(old(cursor).data(), old(cursor).pos()),
    {
        let vu_identification_record_array = RecordArray::<VuIdentificationGen2>::parse(cursor)?.into_inner();
        let vu_sensor_paired_record_array = RecordArray::<SensorPairedRecordGen2>::parse(cursor)?.into_inner();
        let vu_sensor_external_gnss_coupled_record_array = RecordArray::<SensorExternalGNSSCoupledRecordGen2>::parse(cursor)?.into_inner();
        let vu_calibration_record_array = RecordArray::<VuCalibrationRecordGen2>::parse(cursor)?.into_inner();
        let vu_card_record_array = RecordArray::<VuCardRecordGen2>::parse(cursor)?.into_inner();
        let vu_its_consent_record_array = RecordArray::<VuITSConsentRecordGen2>::parse(cursor)?.into_inner();
        let vu_power_supply_interruption_record_array = RecordArray::<VuPowerSupplyInterruptionRecordGen2>::parse(cursor)?.into_inner();
        let signature_record_array = RecordArray::<SignatureGen2>::parse_dyn_size(cursor)?.into_inner();
        Ok(VuCompanyLocksBlockGen2 { vu_identification_record_array, vu_sensor_paired_record_array, vu_sensor_external_gnss_coupled_record_array, vu_calibration_record_array, vu_card_record_array, vu_its_consent_record_array, vu_power_supply_interruption_record_array, signature_record_array })
    }
}

impl Parse for VuCompanyLocksBlockGen2 {
    closed spec fn parse_ok(d: Seq<u8>, p: int) -> bool {
        let p1 = array_end(d, p);
        let p2 = array_end(d, p1);
        let p3 = array_end(d, p2);
        let p4 = array_end(d, p3);
        let p5 = array_end(d, p4);
        let p6 = array_end(d, p5);
        let p7 = array_end(d, p6);
        array_ok::<VuIdentificationGen2>(d, p)
            && array_ok::<SensorPairedRecordGen2>(d, p1)
            && array_ok::<SensorExternalGNSSCoupledRecordGen2>(d, p2)
            && array_ok::<VuCalibrationRecordGen2>(d, p3)
            && array_ok::<VuCardRecordGen2>(d, p4)
            && array_ok::<VuITSConsentRecordGen2>(d, p5)
            && array_ok::<VuPowerSupplyInterruptionRecordGen2>(d, p6)
            && dyn_array_ok::<SignatureGen2>(d, p7)
    }

    closed spec fn parse_end(d: Seq<u8>, p: int) -> int {
        let p1 = array_end(d, p);
        let p2 = array_end(d, p1);
        let p3 = array_end(d, p2);
        let p4 = array_end(d, p3);
        let p5 = array_end(d, p4);
        let p6 = array_end(d, p5);
        let p7 = array_end(d, p6);
        let p8 = array_end(d, p7);
        if !array_ok::<VuIdentificationGen2>(d, p) {
            p1
        } else if !array_ok::<SensorPairedRecordGen2>(d, p1) {
            p2
        } else if !array_ok::<SensorExternalGNSSCoupledRecordGen2>(d, p2) {
            p3
        } else if !array_ok::<VuCalibrationRecordGen2>(d, p3) {
            p4
        } else if !array_ok::<VuCardRecordGen2>(d, p4) {
            p5
        } else if !array_ok::<VuITSConsentRecordGen2>(d, p5) {
            p6
        } else if !array_ok::<VuPowerSupplyInterruptionRecordGen2>(d, p6) {
            p7
        } else if !dyn_array_ok::<SignatureGen2>(d, p7) {
            p8
        } else {
            p8
        }
    }

    closed spec fn parsed_as(d: Seq<u8>, p: int, v: VuCompanyLocksBlockGen2) -> bool {
        let p1 = array_end(d, p);
        let p2 = array_end(d, p1);
        let p3 = array_end(d, p2);
        let p4 = array_end(d, p3);
        let p5 = array_end(d, p4);
        let p6 = array_end(d, p5);
        let p7 = array_end(d, p6);
        array_as::<VuIdentificationGen2>(d, p, v.vu_identification_record_array@)
            && array_as::<SensorPairedRecordGen2>(d, p1, v.vu_sensor_paired_record_array@)
            && array_as::<SensorExternalGNSSCoupledRecordGen2>(d, p2, v.vu_sensor_external_gnss_coupled_record_array@)
            && array_as::<VuCalibrationRecordGen2>(d, p3, v.vu_calibration_record_array@)
            && array_as::<VuCardRecordGen2>(d, p4, v.vu_card_record_array@)
            && array_as::<VuITSConsentRecordGen2>(d, p5, v.vu_its_consent_record_array@)
            && array_as::<VuPowerSupplyInterruptionRecordGen2>(d, p6, v.vu_power_supply_interruption_record_array@)
            && dyn_array_as::<SignatureGen2>(d, p7, v.signature_record_array@)
    }

    closed spec fn parse_err(d: Seq<u8>, p: int) -> ParseError {
        let p1 = array_end(d, p);
        let p2 = array_end(d, p1);
        let p3 = array_end(d, p2);
        let p4 = array_end(d, p3);
        let p5 = array_end(d, p4);
        let p6 = array_end(d, p5);
        let p7 = array_end(d, p6);
        if !array_ok::<VuIdentificationGen2>(d, p) {
            array_err::<VuIdentificationGen2>(d, p)
        } else if !array_ok::<SensorPairedRecordGen2>(d, p1) {
            array_err::<SensorPairedRecordGen2>(d, p1)
        } else if !array_ok::<SensorExternalGNSSCoupledRecordGen2>(d, p2) {
            array_err::<SensorExternalGNSSCoupledRecordGen2>(d, p2)
        } else if !array_ok::<VuCalibrationRecordGen2>(d, p3) {
            array_err::<VuCalibrationRecordGen2>(d, p3)
        } else if !array_ok::<VuCardRecordGen2>(d, p4) {
            array_err::<VuCardRecordGen2>(d, p4)
        } else if !array_ok::<VuITSConsentRecordGen2>(d, p5) {
            array_err::<VuITSConsentRecordGen2>(d, p5)
        } else if !array_ok::<VuPowerSupplyInterruptionRecordGen2>(d, p6) {
            array_err::<VuPowerSupplyInterruptionRecordGen2>(d, p6)
        } else if !dyn_array_ok::<SignatureGen2>(d, p7) {
            dyn_array_err::<SignatureGen2>(d, p7)
        } else {
            ParseError::InvalidValue
        }
    }

    fn parse(cursor: &mut Cursor) -> (res: Result<VuCompanyLocksBlockGen2, ParseError>) {
        VuCompanyLocksBlockGen2::parse(cursor)
    }
}

impl VuCompanyLocksBlockGen2 {
    /// What reading a `VuCompanyLocksBlockGen2` at position `p` of `d` means, spelled out
    /// for readers outside this module.
    pub proof fn lemma_parse_spec(d: Seq<u8>, p: int, v: VuCompanyLocksBlockGen2)
        ensures
            VuCompanyLocksBlockGen2::parse_ok(d, p) == ({
                let p1 = array_end(d, p);
                let p2 = array_end(d, p1);
                let p3 = array_end(d, p2);
                let p4 = array_end(d, p3);
                let p5 = array_end(d, p4);
                let p6 = array_end(d, p5);
                let p7 = array_end(d, p6);
                array_ok::<VuIdentificationGen2>(d, p)
            && array_ok::<SensorPairedRecordGen2>(d, p1)
            && array_ok::<SensorExternalGNSSCoupledRecordGen2>(d, p2)
            && array_ok::<VuCalibrationRecordGen2>(d, p3)
            && array_ok::<VuCardRecordGen2>(d, p4)
            && array_ok::<VuITSConsentRecordGen2>(d, p5)
            && array_ok::<VuPowerSupplyInterruptionRecordGen2>(d, p6)
            && dyn_array_ok::<SignatureGen2>(d, p7)
            }),
            VuCompanyLocksBlockGen2::parse_end(d, p) == ({
                let p1 = array_end(d, p);
                let p2 = array_end(d, p1);
                let p3 = array_end(d, p2);
                let p4 = array_end(d, p3);
                let p5 = array_end(d, p4);
                let p6 = array_end(d, p5);
                let p7 = array_end(d, p6);
                let p8 = array_end(d, p7);
                if !array_ok::<VuIdentificationGen2>(d, p) {
            p1
        } else if !array_ok::<SensorPairedRecordGen2>(d, p1) {
            p2
        } else if !array_ok::<SensorExternalGNSSCoupledRecordGen2>(d, p2) {
            p3
        } else if !array_ok::<VuCalibrationRecordGen2>(d, p3) {
            p4
        } else if !array_ok::<VuCardRecordGen2>(d, p4) {
            p5
        } else if !array_ok::<VuITSConsentRecordGen2>(d, p5) {
            p6
        } else if !array_ok::<VuPowerSupplyInterruptionRecordGen2>(d, p6) {
            p7
        } else if !dyn_array_ok::<SignatureGen2>(d, p7) {
            p8
        } else {
            p8
        }
            }),
            VuCompanyLocksBlockGen2::parsed_as(d, p, v) == ({
                let p1 = array_end(d, p);
                let p2 = array_end(d, p1);
                let p3 = array_end(d, p2);
                let p4 = array_end(d, p3);
                let p5 = array_end(d, p4);
                let p6 = array_end(d, p5);
                let p7 = array_end(d, p6);
                array_as::<VuIdentificationGen2>(d, p, v.vu_identification_record_array@)
            && array_as::<SensorPairedRecordGen2>(d, p1, v.vu_sensor_paired_record_array@)
            && array_as::<SensorExternalGNSSCoupledRecordGen2>(d, p2, v.vu_sensor_external_gnss_coupled_record_array@)
            && array_as::<VuCalibrationRecordGen2>(d, p3, v.vu_calibration_record_array@)
            && array_as::<VuCardRecordGen2>(d, p4, v.vu_card_record_array@)
            && array_as::<VuITSConsentRecordGen2>(d, p5, v.vu_its_consent_record_array@)
            && array_as::<VuPowerSupplyInterruptionRecordGen2>(d, p6, v.vu_power_supply_interruption_record_array@)
            && dyn_array_as::<SignatureGen2>(d, p7, v.signature_record_array@)
            }),
            VuCompanyLocksBlockGen2::parse_err(d, p) == ({
                let p1 = array_end(d, p);
                let p2 = array_end(d, p1);
                let p3 = array_end(d, p2);
                let p4 = array_end(d, p3);
                let p5 = array_end(d, p4);
                let p6 = array_end(d, p5);
                let p7 = array_end(d, p6);
                if !array_ok::<VuIdentificationGen2>(d, p) {
            array_err::<VuIdentificationGen2>(d, p)
        } else if !array_ok::<SensorPairedRecordGen2>(d, p1) {
            array_err::<SensorPairedRecordGen2>(d, p1)
        } else if !array_ok::<SensorExternalGNSSCoupledRecordGen2>(d, p2) {
            array_err::<SensorExternalGNSSCoupledRecordGen2>(d, p2)
        } else if !array_ok::<VuCalibrationRecordGen2>(d, p3) {
            array_err::<VuCalibrationRecordGen2>(d, p3)
        } else if !array_ok::<VuCardRecordGen2>(d, p4) {
            array_err::<VuCardRecordGen2>(d, p4)
        } else if !array_ok::<VuITSConsentRecordGen2>(d, p5) {
            array_err::<VuITSConsentRecordGen2>(d, p5)
        } else if !array_ok::<VuPowerSupplyInterruptionRecordGen2>(d, p6) {
            array_err::<VuPowerSupplyInterruptionRecordGen2>(d, p6)
        } else if !dyn_array_ok::<SignatureGen2>(d, p7) {
            dyn_array_err::<SignatureGen2>(d, p7)
        } else {
            ParseError::InvalidValue
        }
            }),
    {
    }
}

/// The detailed speed block of a generation 2 vehicle unit download (TREP 24).
#[derive(Debug)]
pub struct VuSpeedBlockGen2 {
    pub vu_detailed_speed_block_record_array: Vec<VuDetailedSpeedBlock>,
    pub signature_record_array: Vec<SignatureGen2>,
}

impl VuSpeedBlockGen2 {
    /// Reads a `VuSpeedBlockGen2` at the reader's position.
    pub fn parse(cursor: &mut Cursor) -> (res: Result<VuSpeedBlockGen2, ParseError>)
        ensures
            final(cursor).data() == old(cursor).data(),
            old(cursor).pos() <= final(cursor).pos(),
            final(cursor).pos() == VuSpeedBlockGen2::parse_end(old(cursor).data(), old(cursor).pos()),
            res is Ok <==> VuSpeedBlockGen2::parse_ok(old(cursor).data(), old(cursor).pos()),
            res matches Ok(v) ==> VuSpeedBlockGen2::parsed_as(old(cursor).data(), old(cursor).pos(), v),
            res matches Err(e) ==> e == VuSpeedBlockGen2::parse_err(old(cursor).data(), old(cursor).pos()),
    {
        let vu_detailed_speed_block_record_array = RecordArray::<VuDetailedSpeedBlock>::parse(cursor)?.into_inner();
        let signature_record_array = RecordArray::<SignatureGen2>::parse_dyn_size(cursor)?.into_inner();
        Ok(VuSpeedBlockGen2 { vu_detailed_speed_block_record_array, signature_record_array })
    }
}

impl Parse for VuSpeedBlockGen2 {
    closed spec fn parse_ok(d: Seq<u8>, p: int) -> bool {
        let p1 = array_end(d, p);
        array_ok::<VuDetailedSpeedBlock>(d, p)
            && dyn_array_ok::<SignatureGen2>(d, p1)
    }

    closed spec fn parse_end(d: Seq<u8>, p: int) -> int {
        let p1 = array_end(d, p);
        let p2 = array_end(d, p1);
        if !array_ok::<VuDetailedSpeedBlock>(d, p) {
            p1
        } else if !dyn_array_ok::<SignatureGen2>(d, p1) {
            p2
        } else {
            p2
        }
    }

    closed spec fn parsed_as(d: Seq<u8>, p: int, v: VuSpeedBlockGen2) -> bool {
        let p1 = array_end(d, p);
        array_as::<VuDetailedSpeedBlock>(d, p, v.vu_detailed_speed_block_record_array@)
            && dyn_array_as::<SignatureGen2>(d, p1, v.signature_record_array@)
    }

    closed spec fn parse_err(d: Seq<u8>, p: int) -> ParseError {
        let p1 = array_end(d, p);
        if !array_ok::<VuDetailedSpeedBlock>(d, p) {
            array_err::<VuDetailedSpeedBlock>(d, p)
        } else if !dyn_array_ok::<SignatureGen2>(d, p1) {
            dyn_array_err::<SignatureGen2>(d, p1)
        } else {
            ParseError::InvalidValue
        }
    }

    fn parse(cursor: &mut Cursor) -> (res: Result<VuSpeedBlockGen2, ParseError>) {
        VuSpeedBlockGen2::parse(cursor)
    }
}

impl VuSpeedBlockGen2 {
    /// What reading a `VuSpeedBlockGen2` at position `p` of `d` means, spelled out
    /// for readers outside this module.
    pub proof fn lemma_parse_spec(d: Seq<u8>, p: int, v: VuSpeedBlockGen2)
        ensures
            VuSpeedBlockGen2::parse_ok(d, p) == ({
                let p1 = array_end(d, p);
                array_ok::<VuDetailedSpeedBlock>(d, p)
            && dyn_array_ok::<SignatureGen2>(d, p1)
            }),
            VuSpeedBlockGen2::parse_end(d, p) == ({
                let p1 = array_end(d, p);
                let p2 = array_end(d, p1);
                if !array_ok::<VuDetailedSpeedBlock>(d, p) {
            p1
        } else if !dyn_array_ok::<SignatureGen2>(d, p1) {
            p2
        } else {
            p2
        }
            }),
            VuSpeedBlockGen2::parsed_as(d, p, v) == ({
                let p1 = array_end(d, p);
                array_as::<VuDetailedSpeedBlock>(d, p, v.vu_detailed_speed_block_record_array@)
            && dyn_array_as::<SignatureGen2>(d, p1, v.signature_record_array@)
            }),
            VuSpeedBlockGen2::parse_err(d, p) == ({
                let p1 = array_end(d, p);
                if !array_ok::<VuDetailedSpeedBlock>(d, p) {
            array_err::<VuDetailedSpeedBlock>(d, p)
        } else if !dyn_array_ok::<SignatureGen2>(d, p1) {
            dyn_array_err::<SignatureGen2>(d, p1)
        } else {
            ParseError::InvalidValue
        }
            }),
    {
    }
}

/// VuFaultRecord (appendix 2.201) as generation 2 defines it.
#[derive(Debug)]
pub struct VuFaultRecordGen2 {
    pub fault_type: EventFaultTypeGen2,
    pub fault_record_purpose: EventFaultRecordPurpose,
    pub fault_begin_time: TimeReal,
    pub fault_end_time: TimeReal,
    pub card_number_and_gen_driver_slot_begin: Option<FullCardNumberAndGenerationGen2>,
    pub card_number_and_gen_codriver_slot_begin: Option<FullCardNumberAndGenerationGen2>,
    pub card_number_and_gen_driver_slot_end: Option<FullCardNumberAndGenerationGen2>,
    pub card_number_and_gen_codriver_slot_end: Option<FullCardNumberAndGenerationGen2>,
    pub manufacturer_specific_event_fault_data: Option<ManufacturerSpecificEventFaultDataGen2>,
}

impl VuFaultRecordGen2 {
    /// Reads a `VuFaultRecordGen2` at the reader's position.
    pub fn parse(cursor: &mut Cursor) -> (res: Result<VuFaultRecordGen2, ParseError>)
        ensures
            final(cursor).data() == old(cursor).data(),
            old(cursor).pos() <= final(cursor).pos(),
            final(cursor).pos() == VuFaultRecordGen2::parse_end(old(cursor).data(), old(cursor).pos()),
            res is Ok <==> VuFaultRecordGen2::parse_ok(old(cursor).data(), old(cursor).pos()),
            res matches Ok(v) ==> VuFaultRecordGen2::parsed_as(old(cursor).data(), old(cursor).pos(), v),
            res matches Err(e) ==> e == VuFaultRecordGen2::parse_err(old(cursor).data(), old(cursor).pos()),
    {
        let fault_type = EventFaultTypeGen2::parse(cursor)?;
        let fault_record_purpose = EventFaultRecordPurpose::parse(cursor)?;
        let fault_begin_time = TimeReal::parse(cursor)?;
        let fault_end_time = TimeReal::parse(cursor)?;
        let card_number_and_gen_driver_slot_begin = parse_optional::<FullCardNumberAndGenerationGen2>(cursor);
        let card_number_and_gen_codriver_slot_begin = parse_optional::<FullCardNumberAndGenerationGen2>(cursor);
        let card_number_and_gen_driver_slot_end = parse_optional::<FullCardNumberAndGenerationGen2>(cursor);
        let card_number_and_gen_codriver_slot_end = parse_optional::<FullCardNumberAndGenerationGen2>(cursor);
        let manufacturer_specific_event_fault_data = parse_optional::<ManufacturerSpecificEventFaultDataGen2>(cursor);
        Ok(VuFaultRecordGen2 { fault_type, fault_record_purpose, fault_begin_time, fault_end_time, card_number_and_gen_driver_slot_begin, card_number_and_gen_codriver_slot_begin, card_number_and_gen_driver_slot_end, card_number_and_gen_codriver_slot_end, manufacturer_specific_event_fault_data })
    }
}

impl Parse for VuFaultRecordGen2 {
    open spec fn parse_ok(d: Seq<u8>, p: int) -> bool {
        let p1 = EventFaultTypeGen2::parse_end(d, p);
        let p2 = EventFaultRecordPurpose::parse_end(d, p1);
        let p3 = TimeReal::parse_end(d, p2);
        EventFaultTypeGen2::parse_ok(d, p)
            && EventFaultRecordPurpose::parse_ok(d, p1)
            && TimeReal::parse_ok(d, p2)
            && TimeReal::parse_ok(d, p3)
    }

    open spec fn parse_end(d: Seq<u8>, p: int) -> int {
        let p1 = EventFaultTypeGen2::parse_end(d, p);
        let p2 = EventFaultRecordPurpose::parse_end(d, p1);
        let p3 = TimeReal::parse_end(d, p2);
        let p4 = TimeReal::parse_end(d, p3);
        let p5 = FullCardNumberAndGenerationGen2::parse_end(d, p4);
        let p6 = FullCardNumberAndGenerationGen2::parse_end(d, p5);
        let p7 = FullCardNumberAndGenerationGen2::parse_end(d, p6);
        let p8 = FullCardNumberAndGenerationGen2::parse_end(d, p7);
        let p9 = ManufacturerSpecificEventFaultDataGen2::parse_end(d, p8);
        if !EventFaultTypeGen2::parse_ok(d, p) {
            p1
        } else if !EventFaultRecordPurpose::parse_ok(d, p1) {
            p2
        } else if !TimeReal::parse_ok(d, p2) {
            p3
        } else if !TimeReal::parse_ok(d, p3) {
            p4
        } else {
            p9
        }
    }

    open spec fn parsed_as(d: Seq<u8>, p: int, v: VuFaultRecordGen2) -> bool {
        let p1 = EventFaultTypeGen2::parse_end(d, p);
        let p2 = EventFaultRecordPurpose::parse_end(d, p1);
        let p3 = TimeReal::parse_end(d, p2);
        let p4 = TimeReal::parse_end(d, p3);
        let p5 = FullCardNumberAndGenerationGen2::parse_end(d, p4);
        let p6 = FullCardNumberAndGenerationGen2::parse_end(d, p5);
        let p7 = FullCardNumberAndGenerationGen2::parse_end(d, p6);
        let p8 = FullCardNumberAndGenerationGen2::parse_end(d, p7);
        EventFaultTypeGen2::parsed_as(d, p, v.fault_type)
            && EventFaultRecordPurpose::parsed_as(d, p1, v.fault_record_purpose)
            && TimeReal::parsed_as(d, p2, v.fault_begin_time)
            && TimeReal::parsed_as(d, p3, v.fault_end_time)
            && optional_as::<FullCardNumberAndGenerationGen2>(d, p4, v.card_number_and_gen_driver_slot_begin)
            && optional_as::<FullCardNumberAndGenerationGen2>(d, p5, v.card_number_and_gen_codriver_slot_begin)
            && optional_as::<FullCardNumberAndGenerationGen2>(d, p6, v.card_number_and_gen_driver_slot_end)
            && optional_as::<FullCardNumberAndGenerationGen2>(d, p7, v.card_number_and_gen_codriver_slot_end)
            && optional_as::<ManufacturerSpecificEventFaultDataGen2>(d, p8, v.manufacturer_specific_event_fault_data)
    }

    open spec fn parse_err(d: Seq<u8>, p: int) -> ParseError {
        let p1 = EventFaultTypeGen2::parse_end(d, p);
        let p2 = EventFaultRecordPurpose::parse_end(d, p1);
        let p3 = TimeReal::parse_end(d, p2);
        if !EventFaultTypeGen2::parse_ok(d, p) {
            EventFaultTypeGen2::parse_err(d, p)
        } else if !EventFaultRecordPurpose::parse_ok(d, p1) {
            EventFaultRecordPurpose::parse_err(d, p1)
        } else if !TimeReal::parse_ok(d, p2) {
            TimeReal::parse_err(d, p2)
        } else if !TimeReal::parse_ok(d, p3) {
            TimeReal::parse_err(d, p3)
        } else {
            ParseError::InvalidValue
        }
    }

    fn parse(cursor: &mut Cursor) -> (res: Result<VuFaultRecordGen2, ParseError>) {
        VuFaultRecordGen2::parse(cursor)
    }
}

/// VuEventRecord (appendix 2.198) as generation 2 defines it.
#[derive(Debug)]
pub struct VuEventRecordGen2 {
    pub event_type: EventFaultTypeGen2,
    pub event_record_purpose: EventFaultRecordPurpose,
    pub event_begin_time: TimeReal,
    pub event_end_time: Option<TimeReal>,
    pub card_number_and_gen_driver_slot_begin: Option<FullCardNumberAndGenerationGen2>,
    pub card_number_and_gen_codriver_slot_begin: Option<FullCardNumberAndGenerationGen2>,
    pub card_number_and_gen_driver_slot_end: Option<FullCardNumberAndGenerationGen2>,
    pub card_number_and_gen_codriver_slot_end: Option<FullCardNumberAndGenerationGen2>,
    pub similar_events_number: SimilarEventsNumber,
    pub manufacturer_specific_event_fault_data: Option<ManufacturerSpecificEventFaultDataGen2>,
}

impl VuEventRecordGen2 {
    /// Reads a `VuEventRecordGen2` at the reader's position.
    pub fn parse(cursor: &mut Cursor) -> (res: Result<VuEventRecordGen2, ParseError>)
        ensures
            final(cursor).data() == old(cursor).data(),
            old(cursor).pos() <= final(cursor).pos(),
            final(cursor).pos() == VuEventRecordGen2::parse_end(old(cursor).data(), old(cursor).pos()),
            res is Ok <==> VuEventRecordGen2::parse_ok(old(cursor).data(), old(cursor).pos()),
            res matches Ok(v) ==> VuEventRecordGen2::parsed_as(old(cursor).data(), old(cursor).pos(), v),
            res matches Err(e) ==> e == VuEventRecordGen2::parse_err(old(cursor).data(), old(cursor).pos()),
    {
        let event_type = EventFaultTypeGen2::parse(cursor)?;
        let event_record_purpose = EventFaultRecordPurpose::parse(cursor)?;
        let event_begin_time = TimeReal::parse(cursor)?;
        let event_end_time = parse_optional::<TimeReal>(cursor);
        let card_number_and_gen_driver_slot_begin = parse_optional::<FullCardNumberAndGenerationGen2>(cursor);
        let card_number_and_gen_codriver_slot_begin = parse_optional::<FullCardNumberAndGenerationGen2>(cursor);
        let card_number_and_gen_driver_slot_end = parse_optional::<FullCardNumberAndGenerationGen2>(cursor);
        let card_number_and_gen_codriver_slot_end = parse_optional::<FullCardNumberAndGenerationGen2>(cursor);
        let similar_events_number = SimilarEventsNumber::parse(cursor)?;
        let manufacturer_specific_event_fault_data = parse_optional::<ManufacturerSpecificEventFaultDataGen2>(cursor);
        Ok(VuEventRecordGen2 { event_type, event_record_purpose, event_begin_time, event_end_time, card_number_and_gen_driver_slot_begin, card_number_and_gen_codriver_slot_begin, card_number_and_gen_driver_slot_end, card_number_and_gen_codriver_slot_end, similar_events_number, manufacturer_specific_event_fault_data })
    }
}

impl Parse for VuEventRecordGen2 {
    open spec fn parse_ok(d: Seq<u8>, p: int) -> bool {
        let p1 = EventFaultTypeGen2::parse_end(d, p);
        let p2 = EventFaultRecordPurpose::parse_end(d, p1);
        let p3 = TimeReal::parse_end(d, p2);
        let p4 = TimeReal::parse_end(d, p3);
        let p5 = FullCardNumberAndGenerationGen2::parse_end(d, p4);
        let p6 = FullCardNumberAndGenerationGen2::parse_end(d, p5);
        let p7 = FullCardNumberAndGenerationGen2::parse_end(d, p6);
        let p8 = FullCardNumberAndGenerationGen2::parse_end(d, p7);
        EventFaultTypeGen2::parse_ok(d, p)
            && EventFaultRecordPurpose::parse_ok(d, p1)
            && TimeReal::parse_ok(d, p2)
            && SimilarEventsNumber::parse_ok(d, p8)
    }

    open spec fn parse_end(d: Seq<u8>, p: int) -> int {
        let p1 = EventFaultTypeGen2::parse_end(d, p);
        let p2 = EventFaultRecordPurpose::parse_end(d, p1);
        let p3 = TimeReal::parse_end(d, p2);
        let p4 = TimeReal::parse_end(d, p3);
        let p5 = FullCardNumberAndGenerationGen2::parse_end(d, p4);
        let p6 = FullCardNumberAndGenerationGen2::parse_end(d, p5);
        let p7 = FullCardNumberAndGenerationGen2::parse_end(d, p6);
        let p8 = FullCardNumberAndGenerationGen2::parse_end(d, p7);
        let p9 = SimilarEventsNumber::parse_end(d, p8);
        let p10 = ManufacturerSpecificEventFaultDataGen2::parse_end(d, p9);
        if !EventFaultTypeGen2::parse_ok(d, p) {
            p1
        } else if !EventFaultRecordPurpose::parse_ok(d, p1) {
            p2
        } else if !TimeReal::parse_ok(d, p2) {
            p3
        } else if !SimilarEventsNumber::parse_ok(d, p8) {
            p9
        } else {
            p10
        }
    }

    open spec fn parsed_as(d: Seq<u8>, p: int, v: VuEventRecordGen2) -> bool {
        let p1 = EventFaultTypeGen2::parse_end(d, p);
        let p2 = EventFaultRecordPurpose::parse_end(d, p1);
        let p3 = TimeReal::parse_end(d, p2);
        let p4 = TimeReal::parse_end(d, p3);
        let p5 = FullCardNumberAndGenerationGen2::parse_end(d, p4);
        let p6 = FullCardNumberAndGenerationGen2::parse_end(d, p5);
        let p7 = FullCardNumberAndGenerationGen2::parse_end(d, p6);
        let p8 = FullCardNumberAndGenerationGen2::parse_end(d, p7);
        let p9 = SimilarEventsNumber::parse_end(d, p8);
        EventFaultTypeGen2::parsed_as(d, p, v.event_type)
            && EventFaultRecordPurpose::parsed_as(d, p1, v.event_record_purpose)
            && TimeReal::parsed_as(d, p2, v.event_begin_time)
            && optional_as::<TimeReal>(d, p3, v.event_end_time)
            && optional_as::<FullCardNumberAndGenerationGen2>(d, p4, v.card_number_and_gen_driver_slot_begin)
            && optional_as::<FullCardNumberAndGenerationGen2>(d, p5, v.card_number_and_gen_codriver_slot_begin)
            && optional_as::<FullCardNumberAndGenerationGen2>(d, p6, v.card_number_and_gen_driver_slot_end)
            && optional_as::<FullCardNumberAndGenerationGen2>(d, p7, v.card_number_and_gen_codriver_slot_end)
            && SimilarEventsNumber::parsed_as(d, p8, v.similar_events_number)
            && optional_as::<ManufacturerSpecificEventFaultDataGen2>(d, p9, v.manufacturer_specific_event_fault_data)
    }

    open spec fn parse_err(d: Seq<u8>, p: int) -> ParseError {
        let p1 = EventFaultTypeGen2::parse_end(d, p);
        let p2 = EventFaultRecordPurpose::parse_end(d, p1);
        let p3 = TimeReal::parse_end(d, p2);
        let p4 = TimeReal::parse_end(d, p3);
        let p5 = FullCardNumberAndGenerationGen2::parse_end(d, p4);
        let p6 = FullCardNumberAndGenerationGen2::parse_end(d, p5);
        let p7 = FullCardNumberAndGenerationGen2::parse_end(d, p6);
        let p8 = FullCardNumberAndGenerationGen2::parse_end(d, p7);
        if !EventFaultTypeGen2::parse_ok(d, p) {
            EventFaultTypeGen2::parse_err(d, p)
        } else if !EventFaultRecordPurpose::parse_ok(d, p1) {
            EventFaultRecordPurpose::parse_err(d, p1)
        } else if !TimeReal::parse_ok(d, p2) {
            TimeReal::parse_err(d, p2)
        } else if !SimilarEventsNumber::parse_ok(d, p8) {
            SimilarEventsNumber::parse_err(d, p8)
        } else {
            ParseError::InvalidValue
        }
    }

    fn parse(cursor: &mut Cursor) -> (res: Result<VuEventRecordGen2, ParseError>) {
        VuEventRecordGen2::parse(cursor)
    }
}

/// VuOverSpeedingControlData (appendix 2.212) as generation 2 defines it: each field only when it reads.
#[derive(Debug)]
pub struct VuOverSpeedingControlDataGen2 {
    pub last_overspeed_control_time: Option<TimeReal>,
    pub first_overspeed_since: Option<TimeReal>,
    pub number_of_overspeed_since: Option<OverspeedNumber>,
}

impl VuOverSpeedingControlDataGen2 {
    /// Reads a `VuOverSpeedingControlDataGen2` at the reader's position.
    pub fn parse(cursor: &mut Cursor) -> (res: Result<VuOverSpeedingControlDataGen2, ParseError>)
        ensures
            final(cursor).data() == old(cursor).data(),
            old(cursor).pos() <= final(cursor).pos(),
            final(cursor).pos() == VuOverSpeedingControlDataGen2::parse_end(old(cursor).data(), old(cursor).pos()),
            res is Ok <==> VuOverSpeedingControlDataGen2::parse_ok(old(cursor).data(), old(cursor).pos()),
            res matches Ok(v) ==> VuOverSpeedingControlDataGen2::parsed_as(old(cursor).data(), old(cursor).pos(), v),
            res matches Err(e) ==> e == VuOverSpeedingControlDataGen2::parse_err(old(cursor).data(), old(cursor).pos()),
    {
        let last_overspeed_control_time = parse_optional::<TimeReal>(cursor);
        let first_overspeed_since = parse_optional::<TimeReal>(cursor);
        let number_of_overspeed_since = parse_optional::<OverspeedNumber>(cursor);
        Ok(VuOverSpeedingControlDataGen2 { last_overspeed_control_time, first_overspeed_since, number_of_overspeed_since })
    }
}

impl Parse for VuOverSpeedingControlDataGen2 {
    open spec fn parse_ok(d: Seq<u8>, p: int) -> bool {
        true
    }

    open spec fn parse_end(d: Seq<u8>, p: int) -> int {
        let p1 = TimeReal::parse_end(d, p);
        let p2 = TimeReal::parse_end(d, p1);
        let p3 = OverspeedNumber::parse_end(d, p2);
        {
            p3
        }
    }

    open spec fn parsed_as(d: Seq<u8>, p: int, v: VuOverSpeedingControlDataGen2) -> bool {
        let p1 = TimeReal::parse_end(d, p);
        let p2 = TimeReal::parse_end(d, p1);
        optional_as::<TimeReal>(d, p, v.last_overspeed_control_time)
            && optional_as::<TimeReal>(d, p1, v.first_overspeed_since)
            && optional_as::<OverspeedNumber>(d, p2, v.number_of_overspeed_since)
    }

    open spec fn parse_err(d: Seq<u8>, p: int) -> ParseError {
        {
            ParseError::InvalidValue
        }
    }

    fn parse(cursor: &mut Cursor) -> (res: Result<VuOverSpeedingControlDataGen2, ParseError>) {
        VuOverSpeedingControlDataGen2::parse(cursor)
    }
}

/// VuOverSpeedingEventRecord (appendix 2.215) as generation 2 defines it.
#[derive(Debug)]
pub struct VuOverSpeedingEventRecordGen2 {
    pub event_type: EventFaultTypeGen2,
    pub event_record_purpose: EventFaultRecordPurpose,
    pub event_begin_time: TimeReal,
    pub event_end_time: TimeReal,
    pub max_speed_value: SpeedMax,
    pub average_speed_value: SpeedAverage,
    pub card_number_and_gen_driver_slot_begin: Option<FullCardNumberAndGenerationGen2>,
    pub similar_events_number: SimilarEventsNumber,
}

impl VuOverSpeedingEventRecordGen2 {
    /// Reads a `VuOverSpeedingEventRecordGen2` at the reader's position.
    pub fn parse(cursor: &mut Cursor) -> (res: Result<VuOverSpeedingEventRecordGen2, ParseError>)
        ensures
            final(cursor).data() == old(cursor).data(),
            old(cursor).pos() <= final(cursor).pos(),
            final(cursor).pos() == VuOverSpeedingEventRecordGen2::parse_end(old(cursor).data(), old(cursor).pos()),
            res is Ok <==> VuOverSpeedingEventRecordGen2::parse_ok(old(cursor).data(), old(cursor).pos()),
            res matches Ok(v) ==> VuOverSpeedingEventRecordGen2::parsed_as(old(cursor).data(), old(cursor).pos(), v),
            res matches Err(e) ==> e == VuOverSpeedingEventRecordGen2::parse_err(old(cursor).data(), old(cursor).pos()),
    {
        let event_type = EventFaultTypeGen2::parse(cursor)?;
        let event_record_purpose = EventFaultRecordPurpose::parse(cursor)?;
        let event_begin_time = TimeReal::parse(cursor)?;
        let event_end_time = TimeReal::parse(cursor)?;
        let max_speed_value = SpeedMax::parse(cursor)?;
        let average_speed_value = SpeedAverage::parse(cursor)?;
        let card_number_and_gen_driver_slot_begin = parse_optional::<FullCardNumberAndGenerationGen2>(cursor);
        let similar_events_number = SimilarEventsNumber::parse(cursor)?;
        Ok(VuOverSpeedingEventRecordGen2 { event_type, event_record_purpose, event_begin_time, event_end_time, max_speed_value, average_speed_value, card_number_and_gen_driver_slot_begin, similar_events_number })
    }
}

impl Parse for VuOverSpeedingEventRecordGen2 {
    open spec fn parse_ok(d: Seq<u8>, p: int) -> bool {
        let p1 = EventFaultTypeGen2::parse_end(d, p);
        let p2 = EventFaultRecordPurpose::parse_end(d, p1);
        let p3 = TimeReal::parse_end(d, p2);
        let p4 = TimeReal::parse_end(d, p3);
        let p5 = SpeedMax::parse_end(d, p4);
        let p6 = SpeedAverage::parse_end(d, p5);
        let p7 = FullCardNumberAndGenerationGen2::parse_end(d, p6);
        EventFaultTypeGen2::parse_ok(d, p)
            && EventFaultRecordPurpose::parse_ok(d, p1)
            && TimeReal::parse_ok(d, p2)
            && TimeReal::parse_ok(d, p3)
            && SpeedMax::parse_ok(d, p4)
            && SpeedAverage::parse_ok(d, p5)
            && SimilarEventsNumber::parse_ok(d, p7)
    }

    open spec fn parse_end(d: Seq<u8>, p: int) -> int {
        let p1 = EventFaultTypeGen2::parse_end(d, p);
        let p2 = EventFaultRecordPurpose::parse_end(d, p1);
        let p3 = TimeReal::parse_end(d, p2);
        let p4 = TimeReal::parse_end(d, p3);
        let p5 = SpeedMax::parse_end(d, p4);
        let p6 = SpeedAverage::parse_end(d, p5);
        let p7 = FullCardNumberAndGenerationGen2::parse_end(d, p6);
        let p8 = SimilarEventsNumber::parse_end(d, p7);
        if !EventFaultTypeGen2::parse_ok(d, p) {
            p1
        } else if !EventFaultRecordPurpose::parse_ok(d, p1) {
            p2
        } else if !TimeReal::parse_ok(d, p2) {
            p3
        } else if !TimeReal::parse_ok(d, p3) {
            p4
        } else if !SpeedMax::parse_ok(d, p4) {
            p5
        } else if !SpeedAverage::parse_ok(d, p5) {
            p6
        } else if !SimilarEventsNumber::parse_ok(d, p7) {
            p8
        } else {
            p8
        }
    }

    open spec fn parsed_as(d: Seq<u8>, p: int, v: VuOverSpeedingEventRecordGen2) -> bool {
        let p1 = EventFaultTypeGen2::parse_end(d, p);
        let p2 = EventFaultRecordPurpose::parse_end(d, p1);
        let p3 = TimeReal::parse_end(d, p2);
        let p4 = TimeReal::parse_end(d, p3);
        let p5 = SpeedMax::parse_end(d, p4);
        let p6 = SpeedAverage::parse_end(d, p5);
        let p7 = FullCardNumberAndGenerationGen2::parse_end(d, p6);
        EventFaultTypeGen2::parsed_as(d, p, v.event_type)
            && EventFaultRecordPurpose::parsed_as(d, p1, v.event_record_purpose)
            && TimeReal::parsed_as(d, p2, v.event_begin_time)
            && TimeReal::parsed_as(d, p3, v.event_end_time)
            && SpeedMax::parsed_as(d, p4, v.max_speed_value)
            && SpeedAverage::parsed_as(d, p5, v.average_speed_value)
            && optional_as::<FullCardNumberAndGenerationGen2>(d, p6, v.card_number_and_gen_driver_slot_begin)
            && SimilarEventsNumber::parsed_as(d, p7, v.similar_events_number)
    }

    open spec fn parse_err(d: Seq<u8>, p: int) -> ParseError {
        let p1 = EventFaultTypeGen2::parse_end(d, p);
        let p2 = EventFaultRecordPurpose::parse_end(d, p1);
        let p3 = TimeReal::parse_end(d, p2);
        let p4 = TimeReal::parse_end(d, p3);
        let p5 = SpeedMax::parse_end(d, p4);
        let p6 = SpeedAverage::parse_end(d, p5);
        let p7 = FullCardNumberAndGenerationGen2::parse_end(d, p6);
        if !EventFaultTypeGen2::parse_ok(d, p) {
            EventFaultTypeGen2::parse_err(d, p)
        } else if !EventFaultRecordPurpose::parse_ok(d, p1) {
            EventFaultRecordPurpose::parse_err(d, p1)
        } else if !TimeReal::parse_ok(d, p2) {
            TimeReal::parse_err(d, p2)
        } else if !TimeReal::parse_ok(d, p3) {
            TimeReal::parse_err(d, p3)
        } else if !SpeedMax::parse_ok(d, p4) {
            SpeedMax::parse_err(d, p4)
        } else if !SpeedAverage::parse_ok(d, p5) {
            SpeedAverage::parse_err(d, p5)
        } else if !SimilarEventsNumber::parse_ok(d, p7) {
            SimilarEventsNumber::parse_err(d, p7)
        } else {
            ParseError::InvalidValue
        }
    }

    fn parse(cursor: &mut Cursor) -> (res: Result<VuOverSpeedingEventRecordGen2, ParseError>) {
        VuOverSpeedingEventRecordGen2::parse(cursor)
    }
}

/// VuTimeAdjustmentRecord (appendix 2.232) as generation 2 defines it.
#[derive(Debug)]
pub struct VuTimeAdjustmentRecordGen2 {
    pub old_time_value: TimeReal,
    pub new_time_value: TimeReal,
    pub workshop_name: Name,
    pub workshop_address: Address,
    pub workshop_card_number_and_generation: Option<FullCardNumberAndGenerationGen2>,
}

impl VuTimeAdjustmentRecordGen2 {
    /// Reads a `VuTimeAdjustmentRecordGen2` at the reader's position.
    pub fn parse(cursor: &mut Cursor) -> (res: Result<VuTimeAdjustmentRecordGen2, ParseError>)
        ensures
            final(cursor).data() == old(cursor).data(),
            old(cursor).pos() <= final(cursor).pos(),
            final(cursor).pos() == VuTimeAdjustmentRecordGen2::parse_end(old(cursor).data(), old(cursor).pos()),
            res is Ok <==> VuTimeAdjustmentRecordGen2::parse_ok(old(cursor).data(), old(cursor).pos()),
            res matches Ok(v) ==> VuTimeAdjustmentRecordGen2::parsed_as(old(cursor).data(), old(cursor).pos(), v),
            res matches Err(e) ==> e == VuTimeAdjustmentRecordGen2::parse_err(old(cursor).data(), old(cursor).pos()),
    {
        let old_time_value = TimeReal::parse(cursor)?;
        let new_time_value = TimeReal::parse(cursor)?;
        let workshop_name = Name::parse(cursor)?;
        let workshop_address = Address::parse(cursor)?;
        let workshop_card_number_and_generation = parse_optional::<FullCardNumberAndGenerationGen2>(cursor);
        Ok(VuTimeAdjustmentRecordGen2 { old_time_value, new_time_value, workshop_name, workshop_address, workshop_card_number_and_generation })
    }
}

impl Parse for VuTimeAdjustmentRecordGen2 {
    open spec fn parse_ok(d: Seq<u8>, p: int) -> bool {
        let p1 = TimeReal::parse_end(d, p);
        let p2 = TimeReal::parse_end(d, p1);
        let p3 = Name::parse_end(d, p2);
        TimeReal::parse_ok(d, p)
            && TimeReal::parse_ok(d, p1)
            && Name::parse_ok(d, p2)
            && Address::parse_ok(d, p3)
    }

    open spec fn parse_end(d: Seq<u8>, p: int) -> int {
        let p1 = TimeReal::parse_end(d, p);
        let p2 = TimeReal::parse_end(d, p1);
        let p3 = Name::parse_end(d, p2);
        let p4 = Address::parse_end(d, p3);
        let p5 = FullCardNumberAndGenerationGen2::parse_end(d, p4);
        if !TimeReal::parse_ok(d, p) {
            p1
        } else if !TimeReal::parse_ok(d, p1) {
            p2
        } else if !Name::parse_ok(d, p2) {
            p3
        } else if !Address::parse_ok(d, p3) {
            p4
        } else {
            p5
        }
    }

    open spec fn parsed_as(d: Seq<u8>, p: int, v: VuTimeAdjustmentRecordGen2) -> bool {
        let p1 = TimeReal::parse_end(d, p);
        let p2 = TimeReal::parse_end(d, p1);
        let p3 = Name::parse_end(d, p2);
        let p4 = Address::parse_end(d, p3);
        TimeReal::parsed_as(d, p, v.old_time_value)
            && TimeReal::parsed_as(d, p1, v.new_time_value)
            && Name::parsed_as(d, p2, v.workshop_name)
            && Address::parsed_as(d, p3, v.workshop_address)
            && optional_as::<FullCardNumberAndGenerationGen2>(d, p4, v.workshop_card_number_and_generation)
    }

    open spec fn parse_err(d: Seq<u8>, p: int) -> ParseError {
        let p1 = TimeReal::parse_end(d, p);
        let p2 = TimeReal::parse_end(d, p1);
        let p3 = Name::parse_end(d, p2);
        if !TimeReal::parse_ok(d, p) {
            TimeReal::parse_err(d, p)
        } else if !TimeReal::parse_ok(d, p1) {
            TimeReal::parse_err(d, p1)
        } else if !Name::parse_ok(d, p2) {
            Name::parse_err(d, p2)
        } else if !Address::parse_ok(d, p3) {
            Address::parse_err(d, p3)
        } else {
            ParseError::InvalidValue
        }
    }

    fn parse(cursor: &mut Cursor) -> (res: Result<VuTimeAdjustmentRecordGen2, ParseError>) {
        VuTimeAdjustmentRecordGen2::parse(cursor)
    }
}

/// VuFaultRecord records of a record array.
pub type VuFaultRecordArrayGen2 = Vec<VuFaultRecordGen2>;

/// VuEventRecord records of a record array.
pub type VuEventRecordArrayGen2 = Vec<VuEventRecordGen2>;

/// VuOverSpeedingControlData records of a record array.
pub type VuOverSpeedingControlDataRecordArrayGen2 = Vec<VuOverSpeedingControlDataGen2>;

/// VuOverSpeedingEventRecord records of a record array.
pub type VuOverSpeedingEventRecordArrayGen2 = Vec<VuOverSpeedingEventRecordGen2>;

/// VuTimeAdjustmentRecord records of a record array.
pub type VuTimeAdjustmentRecordArrayGen2 = Vec<VuTimeAdjustmentRecordGen2>;

/// The events and faults block of a generation 2 vehicle unit download (TREP 23): six record arrays.
#[derive(Debug)]
pub struct VuEventsAndFaultsBlockGen2 {
    pub vu_fault_record_array: Vec<VuFaultRecordGen2>,
    pub vu_event_record_array: Vec<VuEventRecordGen2>,
    pub vu_over_speeding_control_data_record_array: Vec<VuOverSpeedingControlDataGen2>,
    pub vu_over_speeding_event_record_array: Vec<VuOverSpeedingEventRecordGen2>,
    pub vu_time_adjustment_record_array: Vec<VuTimeAdjustmentRecordGen2>,
    pub signature_record_array: Vec<SignatureGen2>,
}

impl VuEventsAndFaultsBlockGen2 {
    /// Reads a `VuEventsAndFaultsBlockGen2` at the reader's position.
    pub fn parse(cursor: &mut Cursor) -> (res: Result<VuEventsAndFaultsBlockGen2, ParseError>)
        ensures
            final(cursor).data() == old(cursor).data(),
            old(cursor).pos() <= final(cursor).pos(),
            final(cursor).pos() == VuEventsAndFaultsBlockGen2::parse_end(old(cursor).data(), old(cursor).pos()),
            res is Ok <==> VuEventsAndFaultsBlockGen2::parse_ok(old(cursor).data(), old(cursor).pos()),
            res matches Ok(v) ==> VuEventsAndFaultsBlockGen2::parsed_as(old(cursor).data(), old(cursor).pos(), v),
            res matches Err(e) ==> e == VuEventsAndFaultsBlockGen2::parse_err(old(cursor).data(), old(cursor).pos()),
    {
        let vu_fault_record_array = RecordArray::<VuFaultRecordGen2>::parse(cursor)?.into_inner();
        let vu_event_record_array = RecordArray::<VuEventRecordGen2>::parse(cursor)?.into_inner();
        let vu_over_speeding_control_data_record_array = RecordArray::<VuOverSpeedingControlDataGen2>::parse(cursor)?.into_inner();
        let vu_over_speeding_event_record_array = RecordArray::<VuOverSpeedingEventRecordGen2>::parse(cursor)?.into_inner();
        let vu_time_adjustment_record_array = RecordArray::<VuTimeAdjustmentRecordGen2>::parse(cursor)?.into_inner();
        let signature_record_array = RecordArray::<SignatureGen2>::parse_dyn_size(cursor)?.into_inner();
        Ok(VuEventsAndFaultsBlockGen2 { vu_fault_record_array, vu_event_record_array, vu_over_speeding_control_data_record_array, vu_over_speeding_event_record_array, vu_time_adjustment_record_array, signature_record_array })
    }
}

impl Parse for VuEventsAndFaultsBlockGen2 {
    closed spec fn parse_ok(d: Seq<u8>, p: int) -> bool {
        let p1 = array_end(d, p);
        let p2 = array_end(d, p1);
        let p3 = array_end(d, p2);
        let p4 = array_end(d, p3);
        let p5 = array_end(d, p4);
        array_ok::<VuFaultRecordGen2>(d, p)
            && array_ok::<VuEventRecordGen2>(d, p1)
            && array_ok::<VuOverSpeedingControlDataGen2>(d, p2)
            && array_ok::<VuOverSpeedingEventRecordGen2>(d, p3)
            && array_ok::<VuTimeAdjustmentRecordGen2>(d, p4)
            && dyn_array_ok::<SignatureGen2>(d, p5)
    }

    closed spec fn parse_end(d: Seq<u8>, p: int) -> int {
        let p1 = array_end(d, p);
        let p2 = array_end(d, p1);
        let p3 = array_end(d, p2);
        let p4 = array_end(d, p3);
        let p5 = array_end(d, p4);
        let p6 = array_end(d, p5);
        if !array_ok::<VuFaultRecordGen2>(d, p) {
            p1
        } else if !array_ok::<VuEventRecordGen2>(d, p1) {
            p2
        } else if !array_ok::<VuOverSpeedingControlDataGen2>(d, p2) {
            p3
        } else if !array_ok::<VuOverSpeedingEventRecordGen2>(d, p3) {
            p4
        } else if !array_ok::<VuTimeAdjustmentRecordGen2>(d, p4) {
            p5
        } else if !dyn_array_ok::<SignatureGen2>(d, p5) {
            p6
        } else {
            p6
        }
    }

    closed spec fn parsed_as(d: Seq<u8>, p: int, v: VuEventsAndFaultsBlockGen2) -> bool {
        let p1 = array_end(d, p);
        let p2 = array_end(d, p1);
        let p3 = array_end(d, p2);
        let p4 = array_end(d, p3);
        let p5 = array_end(d, p4);
        array_as::<VuFaultRecordGen2>(d, p, v.vu_fault_record_array@)
            && array_as::<VuEventRecordGen2>(d, p1, v.vu_event_record_array@)
            && array_as::<VuOverSpeedingControlDataGen2>(d, p2, v.vu_over_speeding_control_data_record_array@)
            && array_as::<VuOverSpeedingEventRecordGen2>(d, p3, v.vu_over_speeding_event_record_array@)
            && array_as::<VuTimeAdjustmentRecordGen2>(d, p4, v.vu_time_adjustment_record_array@)
            && dyn_array_as::<SignatureGen2>(d, p5, v.signature_record_array@)
    }

    closed spec fn parse_err(d: Seq<u8>, p: int) -> ParseError {
        let p1 = array_end(d, p);
        let p2 = array_end(d, p1);
        let p3 = array_end(d, p2);
        let p4 = array_end(d, p3);
        let p5 = array_end(d, p4);
        if !array_ok::<VuFaultRecordGen2>(d, p) {
            array_err::<VuFaultRecordGen2>(d, p)
        } else if !array_ok::<VuEventRecordGen2>(d, p1) {
            array_err::<VuEventRecordGen2>(d, p1)
        } else if !array_ok::<VuOverSpeedingControlDataGen2>(d, p2) {
            array_err::<VuOverSpeedingControlDataGen2>(d, p2)
        } else if !array_ok::<VuOverSpeedingEventRecordGen2>(d, p3) {
            array_err::<VuOverSpeedingEventRecordGen2>(d, p3)
        } else if !array_ok::<VuTimeAdjustmentRecordGen2>(d, p4) {
            array_err::<VuTimeAdjustmentRecordGen2>(d, p4)
        } else if !dyn_array_ok::<SignatureGen2>(d, p5) {
            dyn_array_err::<SignatureGen2>(d, p5)
        } else {
            ParseError::InvalidValue
        }
    }

    fn parse(cursor: &mut Cursor) -> (res: Result<VuEventsAndFaultsBlockGen2, ParseError>) {
        VuEventsAndFaultsBlockGen2::parse(cursor)
    }
}

impl VuEventsAndFaultsBlockGen2 {
    /// What reading a `VuEventsAndFaultsBlockGen2` at position `p` of `d` means, spelled out
    /// for readers outside this module.
    pub proof fn lemma_parse_spec(d: Seq<u8>, p: int, v: VuEventsAndFaultsBlockGen2)
        ensures
            VuEventsAndFaultsBlockGen2::parse_ok(d, p) == ({
                let p1 = array_end(d, p);
                let p2 = array_end(d, p1);
                let p3 = array_end(d, p2);
                let p4 = array_end(d, p3);
                let p5 = array_end(d, p4);
                array_ok::<VuFaultRecordGen2>(d, p)
            && array_ok::<VuEventRecordGen2>(d, p1)
            && array_ok::<VuOverSpeedingControlDataGen2>(d, p2)
            && array_ok::<VuOverSpeedingEventRecordGen2>(d, p3)
            && array_ok::<VuTimeAdjustmentRecordGen2>(d, p4)
            && dyn_array_ok::<SignatureGen2>(d, p5)
            }),
            VuEventsAndFaultsBlockGen2::parse_end(d, p) == ({
                let p1 = array_end(d, p);
                let p2 = array_end(d, p1);
                let p3 = array_end(d, p2);
                let p4 = array_end(d, p3);
                let p5 = array_end(d, p4);
                let p6 = array_end(d, p5);
                if !array_ok::<VuFaultRecordGen2>(d, p) {
            p1
        } else if !array_ok::<VuEventRecordGen2>(d, p1) {
            p2
        } else if !array_ok::<VuOverSpeedingControlDataGen2>(d, p2) {
            p3
        } else if !array_ok::<VuOverSpeedingEventRecordGen2>(d, p3) {
            p4
        } else if !array_ok::<VuTimeAdjustmentRecordGen2>(d, p4) {
            p5
        } else if !dyn_array_ok::<SignatureGen2>(d, p5) {
            p6
        } else {
            p6
        }
            }),
            VuEventsAndFaultsBlockGen2::parsed_as(d, p, v) == ({
                let p1 = array_end(d, p);
                let p2 = array_end(d, p1);
                let p3 = array_end(d, p2);
                let p4 = array_end(d, p3);
                let p5 = array_end(d, p4);
                array_as::<VuFaultRecordGen2>(d, p, v.vu_fault_record_array@)
            && array_as::<VuEventRecordGen2>(d, p1, v.vu_event_record_array@)
            && array_as::<VuOverSpeedingControlDataGen2>(d, p2, v.vu_over_speeding_control_data_record_array@)
            && array_as::<VuOverSpeedingEventRecordGen2>(d, p3, v.vu_over_speeding_event_record_array@)
            && array_as::<VuTimeAdjustmentRecordGen2>(d, p4, v.vu_time_adjustment_record_array@)
            && dyn_array_as::<SignatureGen2>(d, p5, v.signature_record_array@)
            }),
            VuEventsAndFaultsBlockGen2::parse_err(d, p) == ({
                let p1 = array_end(d, p);
                let p2 = array_end(d, p1);
                let p3 = array_end(d, p2);
                let p4 = array_end(d, p3);
                let p5 = array_end(d, p4);
                if !array_ok::<VuFaultRecordGen2>(d, p) {
            array_err::<VuFaultRecordGen2>(d, p)
        } else if !array_ok::<VuEventRecordGen2>(d, p1) {
            array_err::<VuEventRecordGen2>(d, p1)
        } else if !array_ok::<VuOverSpeedingControlDataGen2>(d, p2) {
            array_err::<VuOverSpeedingControlDataGen2>(d, p2)
        } else if !array_ok::<VuOverSpeedingEventRecordGen2>(d, p3) {
            array_err::<VuOverSpeedingEventRecordGen2>(d, p3)
        } else if !array_ok::<VuTimeAdjustmentRecordGen2>(d, p4) {
            array_err::<VuTimeAdjustmentRecordGen2>(d, p4)
        } else if !dyn_array_ok::<SignatureGen2>(d, p5) {
            dyn_array_err::<SignatureGen2>(d, p5)
        } else {
            ParseError::InvalidValue
        }
            }),
    {
    }
}

/// VuDownloadActivityData (appendix 2.195) as generation 2 defines it: each field only when it reads.
#[derive(Debug)]
pub struct VuDownloadActivityDataGen2 {
    pub downloading_time: Option<TimeReal>,
    pub full_card_number_and_generation: Option<FullCardNumberAndGenerationGen2>,
    pub company_or_workshop_name: Option<Name>,
}

impl VuDownloadActivityDataGen2 {
    /// Reads a `VuDownloadActivityDataGen2` at the reader's position.
    pub fn parse(cursor: &mut Cursor) -> (res: Result<VuDownloadActivityDataGen2, ParseError>)
        ensures
            final(cursor).data() == old(cursor).data(),
            old(cursor).pos() <= final(cursor).pos(),
            final(cursor).pos() == VuDownloadActivityDataGen2::parse_end(old(cursor).data(), old(cursor).pos()),
            res is Ok <==> VuDownloadActivityDataGen2::parse_ok(old(cursor).data(), old(cursor).pos()),
            res matches Ok(v) ==> VuDownloadActivityDataGen2::parsed_as(old(cursor).data(), old(cursor).pos(), v),
            res matches Err(e) ==> e == VuDownloadActivityDataGen2::parse_err(old(cursor).data(), old(cursor).pos()),
    {
        let downloading_time = parse_optional::<TimeReal>(cursor);
        let full_card_number_and_generation = parse_optional::<FullCardNumberAndGenerationGen2>(cursor);
        let company_or_workshop_name = parse_optional::<Name>(cursor);
        Ok(VuDownloadActivityDataGen2 { downloading_time, full_card_number_and_generation, company_or_workshop_name })
    }
}

impl Parse for VuDownloadActivityDataGen2 {
    open spec fn parse_ok(d: Seq<u8>, p: int) -> bool {
        true
    }

    open spec fn parse_end(d: Seq<u8>, p: int) -> int {
        let p1 = TimeReal::parse_end(d, p);
        let p2 = FullCardNumberAndGenerationGen2::parse_end(d, p1);
        let p3 = Name::parse_end(d, p2);
        {
            p3
        }
    }

    open spec fn parsed_as(d: Seq<u8>, p: int, v: VuDownloadActivityDataGen2) -> bool {
        let p1 = TimeReal::parse_end(d, p);
        let p2 = FullCardNumberAndGenerationGen2::parse_end(d, p1);
        optional_as::<TimeReal>(d, p, v.downloading_time)
            && optional_as::<FullCardNumberAndGenerationGen2>(d, p1, v.full_card_number_and_generation)
            && optional_as::<Name>(d, p2, v.company_or_workshop_name)
    }

    open spec fn parse_err(d: Seq<u8>, p: int) -> ParseError {
        {
            ParseError::InvalidValue
        }
    }

    fn parse(cursor: &mut Cursor) -> (res: Result<VuDownloadActivityDataGen2, ParseError>) {
        VuDownloadActivityDataGen2::parse(cursor)
    }
}

/// VuCompanyLocksRecord (appendix 2.185) as generation 2 defines it.
#[derive(Debug)]
pub struct VuCompanyLocksGen2 {
    pub lock_in_time: TimeReal,
    pub lock_out_time: Option<TimeReal>,
    pub company_name: Name,
    pub company_address: Address,
    pub company_card_number_and_generation: FullCardNumberAndGenerationGen2,
}

impl VuCompanyLocksGen2 {
    /// Reads a `VuCompanyLocksGen2` at the reader's position.
    pub fn parse(cursor: &mut Cursor) -> (res: Result<VuCompanyLocksGen2, ParseError>)
        ensures
            final(cursor).data() == old(cursor).data(),
            old(cursor).pos() <= final(cursor).pos(),
            final(cursor).pos() == VuCompanyLocksGen2::parse_end(old(cursor).data(), old(cursor).pos()),
            res is Ok <==> VuCompanyLocksGen2::parse_ok(old(cursor).data(), old(cursor).pos()),
            res matches Ok(v) ==> VuCompanyLocksGen2::parsed_as(old(cursor).data(), old(cursor).pos(), v),
            res matches Err(e) ==> e == VuCompanyLocksGen2::parse_err(old(cursor).data(), old(cursor).pos()),
    {
        let lock_in_time = TimeReal::parse(cursor)?;
        let lock_out_time = parse_optional::<TimeReal>(cursor);
        let company_name = Name::parse(cursor)?;
        let company_address = Address::parse(cursor)?;
        let company_card_number_and_generation = FullCardNumberAndGenerationGen2::parse(cursor)?;
        Ok(VuCompanyLocksGen2 { lock_in_time, lock_out_time, company_name, company_address, company_card_number_and_generation })
    }
}

impl Parse for VuCompanyLocksGen2 {
    open spec fn parse_ok(d: Seq<u8>, p: int) -> bool {
        let p1 = TimeReal::parse_end(d, p);
        let p2 = TimeReal::parse_end(d, p1);
        let p3 = Name::parse_end(d, p2);
        let p4 = Address::parse_end(d, p3);
        TimeReal::parse_ok(d, p)
            && Name::parse_ok(d, p2)
            && Address::parse_ok(d, p3)
            && FullCardNumberAndGenerationGen2::parse_ok(d, p4)
    }

    open spec fn parse_end(d: Seq<u8>, p: int) -> int {
        let p1 = TimeReal::parse_end(d, p);
        let p2 = TimeReal::parse_end(d, p1);
        let p3 = Name::parse_end(d, p2);
        let p4 = Address::parse_end(d, p3);
        let p5 = FullCardNumberAndGenerationGen2::parse_end(d, p4);
        if !TimeReal::parse_ok(d, p) {
            p1
        } else if !Name::parse_ok(d, p2) {
            p3
        } else if !Address::parse_ok(d, p3) {
            p4
        } else if !FullCardNumberAndGenerationGen2::parse_ok(d, p4) {
            p5
        } else {
            p5
        }
    }

    open spec fn parsed_as(d: Seq<u8>, p: int, v: VuCompanyLocksGen2) -> bool {
        let p1 = TimeReal::parse_end(d, p);
        let p2 = TimeReal::parse_end(d, p1);
        let p3 = Name::parse_end(d, p2);
        let p4 = Address::parse_end(d, p3);
        TimeReal::parsed_as(d, p, v.lock_in_time)
            && optional_as::<TimeReal>(d, p1, v.lock_out_time)
            && Name::parsed_as(d, p2, v.company_name)
            && Address::parsed_as(d, p3, v.company_address)
            && FullCardNumberAndGenerationGen2::parsed_as(d, p4, v.company_card_number_and_generation)
    }

    open spec fn parse_err(d: Seq<u8>, p: int) -> ParseError {
        let p1 = TimeReal::parse_end(d, p);
        let p2 = TimeReal::parse_end(d, p1);
        let p3 = Name::parse_end(d, p2);
        let p4 = Address::parse_end(d, p3);
        if !TimeReal::parse_ok(d, p) {
            TimeReal::parse_err(d, p)
        } else if !Name::parse_ok(d, p2) {
            Name::parse_err(d, p2)
        } else if !Address::parse_ok(d, p3) {
            Address::parse_err(d, p3)
        } else if !FullCardNumberAndGenerationGen2::parse_ok(d, p4) {
            FullCardNumberAndGenerationGen2::parse_err(d, p4)
        } else {
            ParseError::InvalidValue
        }
    }

    fn parse(cursor: &mut Cursor) -> (res: Result<VuCompanyLocksGen2, ParseError>) {
        VuCompanyLocksGen2::parse(cursor)
    }
}

/// VuControlActivityRecord (appendix 2.187) as generation 2 defines it.
#[derive(Debug)]
pub struct VuControlActivityGen2 {
    pub control_type: ControlTypeGen2,
    pub control_time: TimeReal,
    pub control_card_number_and_generation: FullCardNumberAndGenerationGen2,
    pub download_period_begin_time: TimeReal,
    pub download_period_end_time: TimeReal,
}

impl VuControlActivityGen2 {
    /// Reads a `VuControlActivityGen2` at the reader's position.
    pub fn parse(cursor: &mut Cursor) -> (res: Result<VuControlActivityGen2, ParseError>)
        ensures
            final(cursor).data() == old(cursor).data(),
            old(cursor).pos() <= final(cursor).pos(),
            final(cursor).pos() == VuControlActivityGen2::parse_end(old(cursor).data(), old(cursor).pos()),
            res is Ok <==> VuControlActivityGen2::parse_ok(old(cursor).data(), old(cursor).pos()),
            res matches Ok(v) ==> VuControlActivityGen2::parsed_as(old(cursor).data(), old(cursor).pos(), v),
            res matches Err(e) ==> e == VuControlActivityGen2::parse_err(old(cursor).data(), old(cursor).pos()),
    {
        let control_type = ControlTypeGen2::parse(cursor)?;
        let control_time = TimeReal::parse(cursor)?;
        let control_card_number_and_generation = FullCardNumberAndGenerationGen2::parse(cursor)?;
        let download_period_begin_time = TimeReal::parse(cursor)?;
        let download_period_end_time = TimeReal::parse(cursor)?;
        Ok(VuControlActivityGen2 { control_type, control_time, control_card_number_and_generation, download_period_begin_time, download_period_end_time })
    }
}

impl Parse for VuControlActivityGen2 {
    open spec fn parse_ok(d: Seq<u8>, p: int) -> bool {
        let p1 = ControlTypeGen2::parse_end(d, p);
        let p2 = TimeReal::parse_end(d, p1);
        let p3 = FullCardNumberAndGenerationGen2::parse_end(d, p2);
        let p4 = TimeReal::parse_end(d, p3);
        ControlTypeGen2::parse_ok(d, p)
            && TimeReal::parse_ok(d, p1)
            && FullCardNumberAndGenerationGen2::parse_ok(d, p2)
            && TimeReal::parse_ok(d, p3)
            && TimeReal::parse_ok(d, p4)
    }

    open spec fn parse_end(d: Seq<u8>, p: int) -> int {
        let p1 = ControlTypeGen2::parse_end(d, p);
        let p2 = TimeReal::parse_end(d, p1);
        let p3 = FullCardNumberAndGenerationGen2::parse_end(d, p2);
        let p4 = TimeReal::parse_end(d, p3);
        let p5 = TimeReal::parse_end(d, p4);
        if !ControlTypeGen2::parse_ok(d, p) {
            p1
        } else if !TimeReal::parse_ok(d, p1) {
            p2
        } else if !FullCardNumberAndGenerationGen2::parse_ok(d, p2) {
            p3
        } else if !TimeReal::parse_ok(d, p3) {
            p4
        } else if !TimeReal::parse_ok(d, p4) {
            p5
        } else {
            p5
        }
    }

    open spec fn parsed_as(d: Seq<u8>, p: int, v: VuControlActivityGen2) -> bool {
        let p1 = ControlTypeGen2::parse_end(d, p);
        let p2 = TimeReal::parse_end(d, p1);
        let p3 = FullCardNumberAndGenerationGen2::parse_end(d, p2);
        let p4 = TimeReal::parse_end(d, p3);
        ControlTypeGen2::parsed_as(d, p, v.control_type)
            && TimeReal::parsed_as(d, p1, v.control_time)
            && FullCardNumberAndGenerationGen2::parsed_as(d, p2, v.control_card_number_and_generation)
            && TimeReal::parsed_as(d, p3, v.download_period_begin_time)
            && TimeReal::parsed_as(d, p4, v.download_period_end_time)
    }

    open spec fn parse_err(d: Seq<u8>, p: int) -> ParseError {
        let p1 = ControlTypeGen2::parse_end(d, p);
        let p2 = TimeReal::parse_end(d, p1);
        let p3 = FullCardNumberAndGenerationGen2::parse_end(d, p2);
        let p4 = TimeReal::parse_end(d, p3);
        if !ControlTypeGen2::parse_ok(d, p) {
            ControlTypeGen2::parse_err(d, p)
        } else if !TimeReal::parse_ok(d, p1) {
            TimeReal::parse_err(d, p1)
        } else if !FullCardNumberAndGenerationGen2::parse_ok(d, p2) {
            FullCardNumberAndGenerationGen2::parse_err(d, p2)
        } else if !TimeReal::parse_ok(d, p3) {
            TimeReal::parse_err(d, p3)
        } else if !TimeReal::parse_ok(d, p4) {
            TimeReal::parse_err(d, p4)
        } else {
            ParseError::InvalidValue
        }
    }

    fn parse(cursor: &mut Cursor) -> (res: Result<VuControlActivityGen2, ParseError>) {
        VuControlActivityGen2::parse(cursor)
    }
}

/// MemberStateCertificate records of a record array.
pub type MemberStateCertificateRecordArrayGen2 = Vec<MemberStateCertificate>;

/// VuCertificate records of a record array.
pub type VuCertificateRecordArrayGen2 = Vec<CertificateGen2>;

/// VehicleIdentificationNumber records of a record array.
pub type VehicleIdentificationNumberRecordArrayGen2 = Vec<VehicleIdentificationNumber>;

/// VehicleRegistrationNumber records of a record array.
pub type VehicleRegistrationNumberRecordArrayGen2 = Vec<VehicleRegistrationNumber>;

/// CurrentDateTime records of a record array.
pub type CurrentDateTimeRecordArrayGen2 = Vec<CurrentDateTime>;

/// VuDownloadablePeriod records of a record array.
pub type VuDownloadablePeriodRecordArrayGen2 = Vec<VuDownloadablePeriod>;

/// CardSlotsStatus records of a record array.
pub type CardSlotsStatusRecordArrayGen2 = Vec<CardSlotsStatus>;

/// VuDownloadActivityData records of a record array.
pub type VuDownloadActivityDataRecordArrayGen2 = Vec<VuDownloadActivityDataGen2>;

/// VuCompanyLocksRecord records of a record array.
pub type VuCompanyLocksRecordArrayGen2 = Vec<VuCompanyLocksGen2>;

/// VuControlActivityRecord records of a record array.
pub type VuControlActivityRecordArrayGen2 = Vec<VuControlActivityGen2>;

/// The overview block of a generation 2 vehicle unit download (TREP 21): eleven record arrays.
#[derive(Debug)]
pub struct VuOverviewBlockGen2 {
    pub member_state_certificate_record_array: Vec<CertificateGen2>,
    pub vu_certificate_record_array: Vec<CertificateGen2>,
    pub vehicle_identification_number_record_array: Vec<VehicleIdentificationNumber>,
    pub vehicle_registration_number_record_array: Vec<VehicleRegistrationNumber>,
    pub current_date_time_record_array: Vec<CurrentDateTime>,
    pub vu_downloadable_period_record_array: Vec<VuDownloadablePeriod>,
    pub card_slots_status_record_array: Vec<CardSlotsStatus>,
    pub vu_download_activity_data_record_array: Vec<VuDownloadActivityDataGen2>,
    pub vu_company_locks_record_array: Vec<VuCompanyLocksGen2>,
    pub vu_control_activity_record_array: Vec<VuControlActivityGen2>,
    pub signature_record_array: Vec<SignatureGen2>,
}

impl VuOverviewBlockGen2 {
    /// Reads a `VuOverviewBlockGen2` at the reader's position.
    pub fn parse(cursor: &mut Cursor) -> (res: Result<VuOverviewBlockGen2, ParseError>)
        ensures
            final(cursor).data() == old(cursor).data(),
            old(cursor).pos() <= final(cursor).pos(),
            final(cursor).pos() == VuOverviewBlockGen2::parse_end(old(cursor).data(), old(cursor).pos()),
            res is Ok <==> VuOverviewBlockGen2::parse_ok(old(cursor).data(), old(cursor).pos()),
            res matches Ok(v) ==> VuOverviewBlockGen2::parsed_as(old(cursor).data(), old(cursor).pos(), v),
            res matches Err(e) ==> e == VuOverviewBlockGen2::parse_err(old(cursor).data(), old(cursor).pos()),
    {
        let member_state_certificate_record_array = RecordArray::<CertificateGen2>::parse_dyn_size(cursor)?.into_inner();
        let vu_certificate_record_array = RecordArray::<CertificateGen2>::parse_dyn_size(cursor)?.into_inner();
        let vehicle_identification_number_record_array = RecordArray::<VehicleIdentificationNumber>::parse(cursor)?.into_inner();
        let vehicle_registration_number_record_array = RecordArray::<VehicleRegistrationNumber>::parse(cursor)?.into_inner();
        let current_date_time_record_array = RecordArray::<CurrentDateTime>::parse(cursor)?.into_inner();
        let vu_downloadable_period_record_array = RecordArray::<VuDownloadablePeriod>::parse(cursor)?.into_inner();
        let card_slots_status_record_array = RecordArray::<CardSlotsStatus>::parse(cursor)?.into_inner();
        let vu_download_activity_data_record_array = RecordArray::<VuDownloadActivityDataGen2>::parse(cursor)?.into_inner();
        let vu_company_locks_record_array = RecordArray::<VuCompanyLocksGen2>::parse(cursor)?.into_inner();
        let vu_control_activity_record_array = RecordArray::<VuControlActivityGen2>::parse(cursor)?.into_inner();
        let signature_record_array = RecordArray::<SignatureGen2>::parse_dyn_size(cursor)?.into_inner();
        Ok(VuOverviewBlockGen2 { member_state_certificate_record_array, vu_certificate_record_array, vehicle_identification_number_record_array, vehicle_registration_number_record_array, current_date_time_record_array, vu_downloadable_period_record_array, card_slots_status_record_array, vu_download_activity_data_record_array, vu_company_locks_record_array, vu_control_activity_record_array, signature_record_array })
    }
}

impl Parse for VuOverviewBlockGen2 {
    closed spec fn parse_ok(d: Seq<u8>, p: int) -> bool {
        let p1 = array_end(d, p);
        let p2 = array_end(d, p1);
        let p3 = array_end(d, p2);
        let p4 = array_end(d, p3);
        let p5 = array_end(d, p4);
        let p6 = array_end(d, p5);
        let p7 = array_end(d, p6);
        let p8 = array_end(d, p7);
        let p9 = array_end(d, p8);
        let p10 = array_end(d, p9);
        dyn_array_ok::<CertificateGen2>(d, p)
            && dyn_array_ok::<CertificateGen2>(d, p1)
            && array_ok::<VehicleIdentificationNumber>(d, p2)
            && array_ok::<VehicleRegistrationNumber>(d, p3)
            && array_ok::<CurrentDateTime>(d, p4)
            && array_ok::<VuDownloadablePeriod>(d, p5)
            && array_ok::<CardSlotsStatus>(d, p6)
            && array_ok::<VuDownloadActivityDataGen2>(d, p7)
            && array_ok::<VuCompanyLocksGen2>(d, p8)
            && array_ok::<VuControlActivityGen2>(d, p9)
            && dyn_array_ok::<SignatureGen2>(d, p10)
    }

    closed spec fn parse_end(d: Seq<u8>, p: int) -> int {
        let p1 = array_end(d, p);
        let p2 = array_end(d, p1);
        let p3 = array_end(d, p2);
        let p4 = array_end(d, p3);
        let p5 = array_end(d, p4);
        let p6 = array_end(d, p5);
        let p7 = array_end(d, p6);
        let p8 = array_end(d, p7);
        let p9 = array_end(d, p8);
        let p10 = array_end(d, p9);
        let p11 = array_end(d, p10);
        if !dyn_array_ok::<CertificateGen2>(d, p) {
            p1
        } else if !dyn_array_ok::<CertificateGen2>(d, p1) {
            p2
        } else if !array_ok::<VehicleIdentificationNumber>(d, p2) {
            p3
        } else if !array_ok::<VehicleRegistrationNumber>(d, p3) {
            p4
        } else if !array_ok::<CurrentDateTime>(d, p4) {
            p5
        } else if !array_ok::<VuDownloadablePeriod>(d, p5) {
            p6
        } else if !array_ok::<CardSlotsStatus>(d, p6) {
            p7
        } else if !array_ok::<VuDownloadActivityDataGen2>(d, p7) {
            p8
        } else if !array_ok::<VuCompanyLocksGen2>(d, p8) {
            p9
        } else if !array_ok::<VuControlActivityGen2>(d, p9) {
            p10
        } else if !dyn_array_ok::<SignatureGen2>(d, p10) {
            p11
        } else {
            p11
        }
    }

    closed spec fn parsed_as(d: Seq<u8>, p: int, v: VuOverviewBlockGen2) -> bool {
        let p1 = array_end(d, p);
        let p2 = array_end(d, p1);
        let p3 = array_end(d, p2);
        let p4 = array_end(d, p3);
        let p5 = array_end(d, p4);
        let p6 = array_end(d, p5);
        let p7 = array_end(d, p6);
        let p8 = array_end(d, p7);
        let p9 = array_end(d, p8);
        let p10 = array_end(d, p9);
        dyn_array_as::<CertificateGen2>(d, p, v.member_state_certificate_record_array@)
            && dyn_array_as::<CertificateGen2>(d, p1, v.vu_certificate_record_array@)
            && array_as::<VehicleIdentificationNumber>(d, p2, v.vehicle_identification_number_record_array@)
            && array_as::<VehicleRegistrationNumber>(d, p3, v.vehicle_registration_number_record_array@)
            && array_as::<CurrentDateTime>(d, p4, v.current_date_time_record_array@)
            && array_as::<VuDownloadablePeriod>(d, p5, v.vu_downloadable_period_record_array@)
            && array_as::<CardSlotsStatus>(d, p6, v.card_slots_status_record_array@)
            && array_as::<VuDownloadActivityDataGen2>(d, p7, v.vu_download_activity_data_record_array@)
            && array_as::<VuCompanyLocksGen2>(d, p8, v.vu_company_locks_record_array@)
            && array_as::<VuControlActivityGen2>(d, p9, v.vu_control_activity_record_array@)
            && dyn_array_as::<SignatureGen2>(d, p10, v.signature_record_array@)
    }

    closed spec fn parse_err(d: Seq<u8>, p: int) -> ParseError {
        let p1 = array_end(d, p);
        let p2 = array_end(d, p1);
        let p3 = array_end(d, p2);
        let p4 = array_end(d, p3);
        let p5 = array_end(d, p4);
        let p6 = array_end(d, p5);
        let p7 = array_end(d, p6);
        let p8 = array_end(d, p7);
        let p9 = array_end(d, p8);
        let p10 = array_end(d, p9);
        if !dyn_array_ok::<CertificateGen2>(d, p) {
            dyn_array_err::<CertificateGen2>(d, p)
        } else if !dyn_array_ok::<CertificateGen2>(d, p1) {
            dyn_array_err::<CertificateGen2>(d, p1)
        } else if !array_ok::<VehicleIdentificationNumber>(d, p2) {
            array_err::<VehicleIdentificationNumber>(d, p2)
        } else if !array_ok::<VehicleRegistrationNumber>(d, p3) {
            array_err::<VehicleRegistrationNumber>(d, p3)
        } else if !array_ok::<CurrentDateTime>(d, p4) {
            array_err::<CurrentDateTime>(d, p4)
        } else if !array_ok::<VuDownloadablePeriod>(d, p5) {
            array_err::<VuDownloadablePeriod>(d, p5)
        } else if !array_ok::<CardSlotsStatus>(d, p6) {
            array_err::<CardSlotsStatus>(d, p6)
        } else if !array_ok::<VuDownloadActivityDataGen2>(d, p7) {
            array_err::<VuDownloadActivityDataGen2>(d, p7)
        } else if !array_ok::<VuCompanyLocksGen2>(d, p8) {
            array_err::<VuCompanyLocksGen2>(d, p8)
        } else if !array_ok::<VuControlActivityGen2>(d, p9) {
            array_err::<VuControlActivityGen2>(d, p9)
        } else if !dyn_array_ok::<SignatureGen2>(d, p10) {
            dyn_array_err::<SignatureGen2>(d, p10)
        } else {
            ParseError::InvalidValue
        }
    }

    fn parse(cursor: &mut Cursor) -> (res: Result<VuOverviewBlockGen2, ParseError>) {
        VuOverviewBlockGen2::parse(cursor)
    }
}

impl VuOverviewBlockGen2 {
    /// What reading a `VuOverviewBlockGen2` at position `p` of `d` means, spelled out
    /// for readers outside this module.
    pub proof fn lemma_parse_spec(d: Seq<u8>, p: int, v: VuOverviewBlockGen2)
        ensures
            VuOverviewBlockGen2::parse_ok(d, p) == ({
                let p1 = array_end(d, p);
                let p2 = array_end(d, p1);
                let p3 = array_end(d, p2);
                let p4 = array_end(d, p3);
                let p5 = array_end(d, p4);
                let p6 = array_end(d, p5);
                let p7 = array_end(d, p6);
                let p8 = array_end(d, p7);
                let p9 = array_end(d, p8);
                let p10 = array_end(d, p9);
                dyn_array_ok::<CertificateGen2>(d, p)
            && dyn_array_ok::<CertificateGen2>(d, p1)
            && array_ok::<VehicleIdentificationNumber>(d, p2)
            && array_ok::<VehicleRegistrationNumber>(d, p3)
            && array_ok::<CurrentDateTime>(d, p4)
            && array_ok::<VuDownloadablePeriod>(d, p5)
            && array_ok::<CardSlotsStatus>(d, p6)
            && array_ok::<VuDownloadActivityDataGen2>(d, p7)
            && array_ok::<VuCompanyLocksGen2>(d, p8)
            && array_ok::<VuControlActivityGen2>(d, p9)
            && dyn_array_ok::<SignatureGen2>(d, p10)
            }),
            VuOverviewBlockGen2::parse_end(d, p) == ({
                let p1 = array_end(d, p);
                let p2 = array_end(d, p1);
                let p3 = array_end(d, p2);
                let p4 = array_end(d, p3);
                let p5 = array_end(d, p4);
                let p6 = array_end(d, p5);
                let p7 = array_end(d, p6);
                let p8 = array_end(d, p7);
                let p9 = array_end(d, p8);
                let p10 = array_end(d, p9);
                let p11 = array_end(d, p10);
                if !dyn_array_ok::<CertificateGen2>(d, p) {
            p1
        } else if !dyn_array_ok::<CertificateGen2>(d, p1) {
            p2
        } else if !array_ok::<VehicleIdentificationNumber>(d, p2) {
            p3
        } else if !array_ok::<VehicleRegistrationNumber>(d, p3) {
            p4
        } else if !array_ok::<CurrentDateTime>(d, p4) {
            p5
        } else if !array_ok::<VuDownloadablePeriod>(d, p5) {
            p6
        } else if !array_ok::<CardSlotsStatus>(d, p6) {
            p7
        } else if !array_ok::<VuDownloadActivityDataGen2>(d, p7) {
            p8
        } else if !array_ok::<VuCompanyLocksGen2>(d, p8) {
            p9
        } else if !array_ok::<VuControlActivityGen2>(d, p9) {
            p10
        } else if !dyn_array_ok::<SignatureGen2>(d, p10) {
            p11
        } else {
            p11
        }
            }),
            VuOverviewBlockGen2::parsed_as(d, p, v) == ({
                let p1 = array_end(d, p);
                let p2 = array_end(d, p1);
                let p3 = array_end(d, p2);
                let p4 = array_end(d, p3);
                let p5 = array_end(d, p4);
                let p6 = array_end(d, p5);
                let p7 = array_end(d, p6);
                let p8 = array_end(d, p7);
                let p9 = array_end(d, p8);
                let p10 = array_end(d, p9);
                dyn_array_as::<CertificateGen2>(d, p, v.member_state_certificate_record_array@)
            && dyn_array_as::<CertificateGen2>(d, p1, v.vu_certificate_record_array@)
            && array_as::<VehicleIdentificationNumber>(d, p2, v.vehicle_identification_number_record_array@)
            && array_as::<VehicleRegistrationNumber>(d, p3, v.vehicle_registration_number_record_array@)
            && array_as::<CurrentDateTime>(d, p4, v.current_date_time_record_array@)
            && array_as::<VuDownloadablePeriod>(d, p5, v.vu_downloadable_period_record_array@)
            && array_as::<CardSlotsStatus>(d, p6, v.card_slots_status_record_array@)
            && array_as::<VuDownloadActivityDataGen2>(d, p7, v.vu_download_activity_data_record_array@)
            && array_as::<VuCompanyLocksGen2>(d, p8, v.vu_company_locks_record_array@)
            && array_as::<VuControlActivityGen2>(d, p9, v.vu_control_activity_record_array@)
            && dyn_array_as::<SignatureGen2>(d, p10, v.signature_record_array@)
            }),
            VuOverviewBlockGen2::parse_err(d, p) == ({
                let p1 = array_end(d, p);
                let p2 = array_end(d, p1);
                let p3 = array_end(d, p2);
                let p4 = array_end(d, p3);
                let p5 = array_end(d, p4);
                let p6 = array_end(d, p5);
                let p7 = array_end(d, p6);
                let p8 = array_end(d, p7);
                let p9 = array_end(d, p8);
                let p10 = array_end(d, p9);
                if !dyn_array_ok::<CertificateGen2>(d, p) {
            dyn_array_err::<CertificateGen2>(d, p)
        } else if !dyn_array_ok::<CertificateGen2>(d, p1) {
            dyn_array_err::<CertificateGen2>(d, p1)
        } else if !array_ok::<VehicleIdentificationNumber>(d, p2) {
            array_err::<VehicleIdentificationNumber>(d, p2)
        } else if !array_ok::<VehicleRegistrationNumber>(d, p3) {
            array_err::<VehicleRegistrationNumber>(d, p3)
        } else if !array_ok::<CurrentDateTime>(d, p4) {
            array_err::<CurrentDateTime>(d, p4)
        } else if !array_ok::<VuDownloadablePeriod>(d, p5) {
            array_err::<VuDownloadablePeriod>(d, p5)
        } else if !array_ok::<CardSlotsStatus>(d, p6) {
            array_err::<CardSlotsStatus>(d, p6)
        } else if !array_ok::<VuDownloadActivityDataGen2>(d, p7) {
            array_err::<VuDownloadActivityDataGen2>(d, p7)
        } else if !array_ok::<VuCompanyLocksGen2>(d, p8) {
            array_err::<VuCompanyLocksGen2>(d, p8)
        } else if !array_ok::<VuControlActivityGen2>(d, p9) {
            array_err::<VuControlActivityGen2>(d, p9)
        } else if !dyn_array_ok::<SignatureGen2>(d, p10) {
            dyn_array_err::<SignatureGen2>(d, p10)
        } else {
            ParseError::InvalidValue
        }
            }),
    {
    }
}

} // verus!
