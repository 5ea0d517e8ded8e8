//! Laws of the readers stated against the regulation's encodings and the
//! file layout themselves: what each decoded field is, from the bits and
//! entries it comes from.
use crate::cursor::{be16, Parse, ParseDyn};
use crate::detector::{detected_type, header_at, TachoFileType};
use crate::dt::gen1::{CardPlaceDailyWorkPeriod, ControlType, SpecificConditions};
use crate::dt::gen2::{
    RecordArray, RecordTypeGen2,
    ControlTypeGen2, CardPlaceDailyWorkPeriodGen2, CardVehicleUnitsUsedGen2, GNSSAccumulatedDrivingGen2,
    SpecificConditionsGen2,
};
use crate::repeat::{attempt_pos, attempt_positions, kept_positions, leading_successes, values_at};
use crate::sort::{sorted_by_time, sorted_values_at, Timed};
use crate::dt::{
    DailyPresenceCounter, Datef, MonthYear, TimeReal, VuDataBlockCounter, ActivityChangeInfo, ActivityChangeInfoCardActivity, ActivityChangeInfoCardStatusSlot,
    ActivityChangeInfoDrivingStatus, ActivityChangeInfoSlot, CardSlotStatus, CardSlotsStatus,
    CardActivityDailyRecord, CARD_DRIVER_ACTIVITY_SIZE, cyclic_end, cyclic_ok, uncycled,
    daily_record_positions,
};
use crate::text::{
    code_page_text, iso8859_13_text, iso8859_14_text, iso8859_15_text, iso8859_16_text,
    iso8859_1_text, iso8859_2_text, iso8859_3_text, iso8859_4_text, iso8859_5_text,
    iso8859_6_text, iso8859_7_text, iso8859_8_text, iso8859_9_text, koi8_r_text, koi8_u_text,
    lossy_utf8_text,
};
use vstd::prelude::*;

verus! {

/// The bits of the first byte `b` of a word `b c` seen as sixteen bits.
proof fn lemma_word_bits(b: u8, c: u8)
    ensures
        ((b as int) * 256 + c as int) / 32768 == (b >> 7u8) as int,
        (((b as int) * 256 + c as int) / 16384) % 2 == ((b >> 6u8) & 1u8) as int,
        (((b as int) * 256 + c as int) / 8192) % 2 == ((b >> 5u8) & 1u8) as int,
        (((b as int) * 256 + c as int) / 2048) % 4 == ((b >> 3u8) & 3u8) as int,
        ((b as int) * 256 + c as int) % 2048 == ((b & 7u8) as int) * 256 + c as int,
{
    let w: u16 = ((b as int) * 256 + c as int) as u16;
    assert(w as int == (b as int) * 256 + c as int);
    assert(w / 256 == b as u16 && w % 256 == c as u16);
    assert(w / 32768 == (b >> 7u8) as u16) by (bit_vector)
        requires
            w / 256 == b as u16 && w % 256 == c as u16,
    ;
    assert((w / 16384) % 2 == ((b >> 6u8) & 1u8) as u16) by (bit_vector)
        requires
            w / 256 == b as u16 && w % 256 == c as u16,
    ;
    assert((w / 8192) % 2 == ((b >> 5u8) & 1u8) as u16) by (bit_vector)
        requires
            w / 256 == b as u16 && w % 256 == c as u16,
    ;
    assert((w / 2048) % 4 == ((b >> 3u8) & 3u8) as u16) by (bit_vector)
        requires
            w / 256 == b as u16 && w % 256 == c as u16,
    ;
    assert(w % 2048 == ((b & 7u8) as u16) * 256 + (c as u16)) by (bit_vector)
        requires
            w / 256 == b as u16 && w % 256 == c as u16,
    ;
}

/// An activity change read from the two bytes `b c` at `p` holds, from the
/// most significant bit of `b` on: the slot (0 driver, 1 co-driver), the
/// driving status (0 single, 1 crew), the card status (0 inserted, 1 not
/// inserted), the activity in two bits (00 break or rest, 01 availability,
/// 10 work, 11 driving), and in the remaining eleven bits the minute of the
/// day at which it starts.
pub proof fn law_activity_change_bits(d: Seq<u8>, p: int, v: ActivityChangeInfo)
    requires
        0 <= p && p + 2 <= d.len(),
        ActivityChangeInfo::parsed_as(d, p, v),
    ensures
        (d[p] >> 7u8) == 0 ==> v.slot == ActivityChangeInfoSlot::Driver,
        (d[p] >> 7u8) == 1 ==> v.slot == ActivityChangeInfoSlot::CoDriver,
        (d[p] >> 6u8) & 1u8 == 0 ==> v.driving_status == ActivityChangeInfoDrivingStatus::Single,
        (d[p] >> 6u8) & 1u8 == 1 ==> v.driving_status == ActivityChangeInfoDrivingStatus::Crew,
        (d[p] >> 5u8) & 1u8 == 0 ==> v.slot_status == ActivityChangeInfoCardStatusSlot::Inserted,
        (d[p] >> 5u8) & 1u8 == 1 ==> v.slot_status == ActivityChangeInfoCardStatusSlot::NotInserted,
        (d[p] >> 3u8) & 3u8 == 0 ==> v.activity == ActivityChangeInfoCardActivity::BreakRest,
        (d[p] >> 3u8) & 3u8 == 1 ==> v.activity == ActivityChangeInfoCardActivity::Availability,
        (d[p] >> 3u8) & 3u8 == 2 ==> v.activity == ActivityChangeInfoCardActivity::Work,
        (d[p] >> 3u8) & 3u8 == 3 ==> v.activity == ActivityChangeInfoCardActivity::Driving,
        v.minutes == ((d[p] & 7u8) as int) * 256 + d[p + 1] as int,
{
    lemma_word_bits(d[p], d[p + 1]);
    assert(be16(d, p) == (d[p] as int) * 256 + d[p + 1] as int);
}

/// A card slots status read from the byte `b` at `p` holds the co-driver
/// slot in the high four bits and the driver slot in the low four bits,
/// each coded 0 no card, 1 driver card, 2 workshop card, 3 control card,
/// 4 company card.
pub proof fn law_card_slots_nibbles(d: Seq<u8>, p: int, v: CardSlotsStatus)
    requires
        0 <= p < d.len(),
        CardSlotsStatus::parsed_as(d, p, v),
    ensures
        d[p] >> 4u8 == 0 ==> v.codriver == CardSlotStatus::NoCardInserted,
        d[p] >> 4u8 == 1 ==> v.codriver == CardSlotStatus::DriverCardInserted,
        d[p] >> 4u8 == 2 ==> v.codriver == CardSlotStatus::WorkshopCardInserted,
        d[p] >> 4u8 == 3 ==> v.codriver == CardSlotStatus::ControlCardInserted,
        d[p] >> 4u8 == 4 ==> v.codriver == CardSlotStatus::CompanyCardInserted,
        d[p] & 15u8 == 0 ==> v.driver == CardSlotStatus::NoCardInserted,
        d[p] & 15u8 == 1 ==> v.driver == CardSlotStatus::DriverCardInserted,
        d[p] & 15u8 == 2 ==> v.driver == CardSlotStatus::WorkshopCardInserted,
        d[p] & 15u8 == 3 ==> v.driver == CardSlotStatus::ControlCardInserted,
        d[p] & 15u8 == 4 ==> v.driver == CardSlotStatus::CompanyCardInserted,
{
    let b = d[p];
    assert(b >> 4u8 == b / 16u8 && b & 15u8 == b % 16u8) by (bit_vector);
}

/// Text of each code page is read with the decoder of its character set:
/// parts 1 to 9 and 13 to 16 of ISO/IEC 8859 by their numbers, KOI8-U for
/// 80, KOI8-R for 85, and UTF-8 (invalid sequences replaced) otherwise.
pub proof fn law_code_page_charsets(b: Seq<u8>, code_page: u8)
    ensures
        code_page == 1 ==> code_page_text(code_page, b) == iso8859_1_text(b),
        code_page == 2 ==> code_page_text(code_page, b) == iso8859_2_text(b),
        code_page == 3 ==> code_page_text(code_page, b) == iso8859_3_text(b),
        code_page == 4 ==> code_page_text(code_page, b) == iso8859_4_text(b),
        code_page == 5 ==> code_page_text(code_page, b) == iso8859_5_text(b),
        code_page == 6 ==> code_page_text(code_page, b) == iso8859_6_text(b),
        code_page == 7 ==> code_page_text(code_page, b) == iso8859_7_text(b),
        code_page == 8 ==> code_page_text(code_page, b) == iso8859_8_text(b),
        code_page == 9 ==> code_page_text(code_page, b) == iso8859_9_text(b),
        code_page == 13 ==> code_page_text(code_page, b) == iso8859_13_text(b),
        code_page == 14 ==> code_page_text(code_page, b) == iso8859_14_text(b),
        code_page == 15 ==> code_page_text(code_page, b) == iso8859_15_text(b),
        code_page == 16 ==> code_page_text(code_page, b) == iso8859_16_text(b),
        code_page == 80 ==> code_page_text(code_page, b) == koi8_u_text(b),
        code_page == 85 ==> code_page_text(code_page, b) == koi8_r_text(b),
        !(1 <= code_page <= 9 || 13 <= code_page <= 16 || code_page == 80 || code_page == 85)
            ==> code_page_text(code_page, b) == lossy_utf8_text(b),
{
}

/// A time read from the four bytes at `p` is the number of seconds they
/// hold, most significant byte first.
pub proof fn law_time_real_seconds(d: Seq<u8>, p: int, v: TimeReal)
    requires
        0 <= p && p + 4 <= d.len(),
        TimeReal::parsed_as(d, p, v),
    ensures
        v.0 == d[p] * 16777216 + d[p + 1] * 65536 + d[p + 2] * 256 + d[p + 3],
{
}

/// A date read from the four bytes at `p` holds the year in the two BCD
/// bytes `yy yy`, then the month and the day in one BCD byte each: each
/// byte's high four bits are the tens digit and its low four bits the units.
pub proof fn law_datef_digits(d: Seq<u8>, p: int, v: Datef)
    requires
        0 <= p && p + 4 <= d.len(),
        Datef::parsed_as(d, p, v),
    ensures
        v.year == (d[p] / 16) * 1000 + (d[p] % 16) * 100 + (d[p + 1] / 16) * 10 + d[p + 1] % 16,
        v.month == (d[p + 2] / 16) * 10 + d[p + 2] % 16,
        v.day == (d[p + 3] / 16) * 10 + d[p + 3] % 16,
{
    let y = d.subrange(p, p + 2);
    assert(y.drop_last().drop_last().len() == 0);
    assert(y.drop_last() =~= seq![d[p]]);
    assert(seq![d[p]].drop_last().len() == 0);
    reveal_with_fuel(crate::dt::bcd_value, 3);
    assert(d.subrange(p + 2, p + 3).drop_last().len() == 0);
    assert(d.subrange(p + 3, p + 4).drop_last().len() == 0);
}

/// A month and year read from the two bytes at `p`: the month in the first
/// BCD byte, the year of the century in the second.
pub proof fn law_month_year_digits(d: Seq<u8>, p: int, v: MonthYear)
    requires
        0 <= p && p + 2 <= d.len(),
        MonthYear::parsed_as(d, p, v),
    ensures
        v.month == (d[p] / 16) * 10 + d[p] % 16,
        v.year == (d[p + 1] / 16) * 10 + d[p + 1] % 16,
{
    reveal_with_fuel(crate::dt::bcd_value, 2);
    assert(d.subrange(p, p + 1).drop_last().len() == 0);
    assert(d.subrange(p + 1, p + 2).drop_last().len() == 0);
}

/// The counters kept in two BCD bytes at `p` (the daily presence counter of
/// a card, the block counter of a vehicle unit) are the four-digit numbers
/// they spell.
pub proof fn law_bcd_counters(d: Seq<u8>, p: int, c: DailyPresenceCounter, n: VuDataBlockCounter)
    requires
        0 <= p && p + 2 <= d.len(),
        DailyPresenceCounter::parsed_as(d, p, c),
        VuDataBlockCounter::parsed_as(d, p, n),
    ensures
        c.0 == (d[p] / 16) * 1000 + (d[p] % 16) * 100 + (d[p + 1] / 16) * 10 + d[p + 1] % 16,
        n.0 == (d[p] / 16) * 1000 + (d[p] % 16) * 100 + (d[p + 1] / 16) * 10 + d[p + 1] % 16,
{
    let y = d.subrange(p, p + 2);
    assert(y.drop_last() =~= seq![d[p]]);
    assert(seq![d[p]].drop_last().len() == 0);
    reveal_with_fuel(crate::dt::bcd_value, 3);
}

/// Records read and sorted by time are in order of time.
proof fn lemma_sorted_values_ordered<T: Parse + Timed>(d: Seq<u8>, ps: Seq<int>, v: Seq<T>, descending: bool)
    requires
        sorted_values_at(d, ps, v, descending),
    ensures
        sorted_by_time(v, descending),
{
}

/// The records of the specific conditions of a generation 1 card come in order of their time, oldest first.
pub proof fn law_specific_conditions_order(d: Seq<u8>, p: int, size: int, v: SpecificConditions)
    requires
        SpecificConditions::dyn_as(d, p, size, v),
    ensures
        forall|i: int, j: int|
            0 <= i < j < v.specific_condition_records@.len() ==> #[trigger] v.specific_condition_records@[i].entry_time.0 <= #[trigger] v.specific_condition_records@[j].entry_time.0,
{
    lemma_sorted_values_ordered(d, kept_positions::<crate::dt::gen1::SpecificConditionRecord>(d, p, (size / 5) as nat), v.specific_condition_records@, false);
    assert forall|i: int, j: int| 0 <= i < j < v.specific_condition_records@.len() implies #[trigger] v.specific_condition_records@[i].entry_time.0 <= #[trigger] v.specific_condition_records@[j].entry_time.0 by {
        assert(v.specific_condition_records@[i].time_key() <= v.specific_condition_records@[j].time_key());
    }
}

/// The records of the places of a generation 1 card come in order of their time, oldest first.
pub proof fn law_card_place_daily_work_period_order(d: Seq<u8>, p: int, size: int, v: CardPlaceDailyWorkPeriod)
    requires
        CardPlaceDailyWorkPeriod::dyn_as(d, p, size, v),
    ensures
        forall|i: int, j: int|
            0 <= i < j < v.place_records@.len() ==> #[trigger] v.place_records@[i].entry_time.0 <= #[trigger] v.place_records@[j].entry_time.0,
{
    lemma_sorted_values_ordered(d, kept_positions::<crate::dt::gen1::PlaceRecord>(d, p + 1, (size / 10) as nat), v.place_records@, false);
    assert forall|i: int, j: int| 0 <= i < j < v.place_records@.len() implies #[trigger] v.place_records@[i].entry_time.0 <= #[trigger] v.place_records@[j].entry_time.0 by {
        assert(v.place_records@[i].time_key() <= v.place_records@[j].time_key());
    }
}

/// The records of the places of a generation 2 card come in order of their time, oldest first.
pub proof fn law_card_place_daily_work_period_gen2_order(d: Seq<u8>, p: int, size: int, v: CardPlaceDailyWorkPeriodGen2)
    requires
        CardPlaceDailyWorkPeriodGen2::dyn_as(d, p, size, v),
    ensures
        forall|i: int, j: int|
            0 <= i < j < v.place_records@.len() ==> #[trigger] v.place_records@[i].entry_time.0 <= #[trigger] v.place_records@[j].entry_time.0,
{
    lemma_sorted_values_ordered(d, kept_positions::<crate::dt::gen2::PlaceRecordGen2>(d, p + 2, (size / 21) as nat), v.place_records@, false);
    assert forall|i: int, j: int| 0 <= i < j < v.place_records@.len() implies #[trigger] v.place_records@[i].entry_time.0 <= #[trigger] v.place_records@[j].entry_time.0 by {
        assert(v.place_records@[i].time_key() <= v.place_records@[j].time_key());
    }
}

/// The records of the specific conditions of a generation 2 card come in order of their time, newest first.
pub proof fn law_specific_conditions_gen2_order(d: Seq<u8>, p: int, size: int, v: SpecificConditionsGen2)
    requires
        SpecificConditionsGen2::dyn_as(d, p, size, v),
    ensures
        forall|i: int, j: int|
            0 <= i < j < v.specific_condition_records@.len() ==> #[trigger] v.specific_condition_records@[i].entry_time.0 >= #[trigger] v.specific_condition_records@[j].entry_time.0,
{
    lemma_sorted_values_ordered(d, kept_positions::<crate::dt::gen2::SpecificConditionRecordGen2>(d, p + 2, (size / 5) as nat), v.specific_condition_records@, true);
    assert forall|i: int, j: int| 0 <= i < j < v.specific_condition_records@.len() implies #[trigger] v.specific_condition_records@[i].entry_time.0 >= #[trigger] v.specific_condition_records@[j].entry_time.0 by {
        assert(v.specific_condition_records@[i].time_key() >= v.specific_condition_records@[j].time_key());
    }
}

/// The records of the vehicle units a generation 2 card was used in come in order of their time, newest first.
pub proof fn law_card_vehicle_units_used_gen2_order(d: Seq<u8>, p: int, size: int, v: CardVehicleUnitsUsedGen2)
    requires
        CardVehicleUnitsUsedGen2::dyn_as(d, p, size, v),
    ensures
        forall|i: int, j: int|
            0 <= i < j < v.card_vehicle_unit_records@.len() ==> #[trigger] v.card_vehicle_unit_records@[i].time_stamp.0 >= #[trigger] v.card_vehicle_unit_records@[j].time_stamp.0,
{
    lemma_sorted_values_ordered(d, kept_positions::<crate::dt::gen2::CardVehicleUnitRecordGen2>(d, p + 2, (size / 10) as nat), v.card_vehicle_unit_records@, true);
    assert forall|i: int, j: int| 0 <= i < j < v.card_vehicle_unit_records@.len() implies #[trigger] v.card_vehicle_unit_records@[i].time_stamp.0 >= #[trigger] v.card_vehicle_unit_records@[j].time_stamp.0 by {
        assert(v.card_vehicle_unit_records@[i].time_key() >= v.card_vehicle_unit_records@[j].time_key());
    }
}

/// The records of the places of accumulated driving of a generation 2 card come in order of their time, oldest first.
pub proof fn law_g_n_s_s_accumulated_driving_gen2_order(d: Seq<u8>, p: int, size: int, v: GNSSAccumulatedDrivingGen2)
    requires
        GNSSAccumulatedDrivingGen2::dyn_as(d, p, size, v),
    ensures
        forall|i: int, j: int|
            0 <= i < j < v.gnss_accumulated_driving_records@.len() ==> #[trigger] v.gnss_accumulated_driving_records@[i].time_stamp.0 <= #[trigger] v.gnss_accumulated_driving_records@[j].time_stamp.0,
{
    lemma_sorted_values_ordered(d.subrange(p, p + size), kept_positions::<crate::dt::gen2::GNSSAccumulatedDrivingRecordGen2>(d.subrange(p, p + size), 2, (size / 18) as nat), v.gnss_accumulated_driving_records@, false);
    assert forall|i: int, j: int| 0 <= i < j < v.gnss_accumulated_driving_records@.len() implies #[trigger] v.gnss_accumulated_driving_records@[i].time_stamp.0 <= #[trigger] v.gnss_accumulated_driving_records@[j].time_stamp.0 by {
        assert(v.gnss_accumulated_driving_records@[i].time_key() <= v.gnss_accumulated_driving_records@[j].time_key());
    }
}

/// The kind of a control read from the byte at `p`, one flag per bit from
/// the most significant: card downloading (0x80), vehicle unit downloading
/// (0x40), printing (0x20), display (0x10).
pub proof fn law_control_type_bits(d: Seq<u8>, p: int, v: ControlType)
    requires
        0 <= p < d.len(),
        ControlType::parsed_as(d, p, v),
    ensures
        v.card_downloading <==> d[p] & 0x80u8 != 0,
        v.vu_downloading <==> d[p] & 0x40u8 != 0,
        v.printing <==> d[p] & 0x20u8 != 0,
        v.display <==> d[p] & 0x10u8 != 0,
{
    let b = d[p];
    assert(((b / 128) % 2 == 1) == (b & 0x80u8 != 0)) by (bit_vector);
    assert(((b / 64) % 2 == 1) == (b & 0x40u8 != 0)) by (bit_vector);
    assert(((b / 32) % 2 == 1) == (b & 0x20u8 != 0)) by (bit_vector);
    assert(((b / 16) % 2 == 1) == (b & 0x10u8 != 0)) by (bit_vector);
}

/// The kind of a control of generation 2 read from the byte at `p`: the
/// flags of generation 1 and roadside calibration checking (0x08).
pub proof fn law_control_type_gen2_bits(d: Seq<u8>, p: int, v: ControlTypeGen2)
    requires
        0 <= p < d.len(),
        ControlTypeGen2::parsed_as(d, p, v),
    ensures
        v.card_downloading <==> d[p] & 0x80u8 != 0,
        v.vu_downloading <==> d[p] & 0x40u8 != 0,
        v.printing <==> d[p] & 0x20u8 != 0,
        v.display <==> d[p] & 0x10u8 != 0,
        v.roadside_calibration_checking <==> d[p] & 0x08u8 != 0,
{
    let b = d[p];
    assert((((b >> 7u8) & 1) == 1) == (b & 0x80u8 != 0)) by (bit_vector);
    assert((((b >> 6u8) & 1) == 1) == (b & 0x40u8 != 0)) by (bit_vector);
    assert((((b >> 5u8) & 1) == 1) == (b & 0x20u8 != 0)) by (bit_vector);
    assert((((b >> 4u8) & 1) == 1) == (b & 0x10u8 != 0)) by (bit_vector);
    assert((((b >> 3u8) & 1) == 1) == (b & 0x08u8 != 0)) by (bit_vector);
}

/// The kind of a file from its first bytes: 0x76 and a TREP from 0x01 to
/// 0x05, 0x21 to 0x25 or 0x31 to 0x35 name a vehicle unit download of
/// generation 1, 2 or 2 version 2; a file starting 0x00 0x02 is a driver
/// card, of generation 2 version 2 where the bytes 0x05 0x25 0x02 stand
/// from position 2 on, else of generation 2 where 0x05 0x01 0x02 do, else
/// of generation 1 where 0x05 0x01 0x00 do.
pub proof fn law_detected_kind_by_bytes(d: Seq<u8>, j: int)
    requires
        d.len() >= 2,
    ensures
        d[0] == 0x76 && 0x01 <= d[1] <= 0x05 ==> detected_type(d) == Some(TachoFileType::VehicleUnitGen1),
        d[0] == 0x76 && 0x21 <= d[1] <= 0x25 ==> detected_type(d) == Some(TachoFileType::VehicleUnitGen2),
        d[0] == 0x76 && 0x31 <= d[1] <= 0x35 ==> detected_type(d) == Some(TachoFileType::VehicleUnitGen2V2),
        d[0] == 0x76 && !(0x01 <= d[1] <= 0x05 || 0x21 <= d[1] <= 0x25 || 0x31 <= d[1] <= 0x35) ==> detected_type(d) is None,
        !(d[0] == 0x76) && !(d[0] == 0x00 && d[1] == 0x02) ==> detected_type(d) is None,
        d[0] == 0x00 && d[1] == 0x02 && j >= 2 && header_at(d, j, seq![0x05u8, 0x25u8, 0x02u8])
            ==> detected_type(d) == Some(TachoFileType::DriverCardGen2V2),
        d[0] == 0x00 && d[1] == 0x02 && j >= 2 && header_at(d, j, seq![0x05u8, 0x01u8, 0x02u8])
            ==> detected_type(d) == Some(TachoFileType::DriverCardGen2V2) || detected_type(d) == Some(TachoFileType::DriverCardGen2),
        d[0] == 0x00 && d[1] == 0x02 && j >= 2 && header_at(d, j, seq![0x05u8, 0x01u8, 0x00u8])
            ==> detected_type(d) is Some,
{
}

/// The daily records of a driver card are read from the cyclic buffer `c`
/// starting at the oldest record and going on byte by byte, wrapping from
/// the end of the buffer to its start, up to the end of the newest record.
pub proof fn law_cyclic_buffer_in_order(c: Seq<u8>, oldest: int, newest: int)
    requires
        c.len() == CARD_DRIVER_ACTIVITY_SIZE,
        0 <= oldest,
        0 <= newest,
        cyclic_ok(c, oldest, newest),
    ensures
        uncycled(c, oldest, newest).len() == (cyclic_end(c, newest) - oldest) % (c.len() as int),
        forall|i: int|
            0 <= i < uncycled(c, oldest, newest).len() ==> #[trigger] uncycled(c, oldest, newest)[i]
                == c[(oldest + i) % (c.len() as int)],
{
    let n = c.len() as int;
    let e = cyclic_end(c, newest);
    assert(0 <= e < n);
    let u = uncycled(c, oldest, newest);
    if e < oldest {
        assert(u.len() == n - oldest + e);
        assert((e - oldest) % n == n - oldest + e);
        assert forall|i: int| 0 <= i < u.len() implies #[trigger] u[i] == c[(oldest + i) % n] by {
            if i < n - oldest {
                assert((oldest + i) % n == oldest + i);
            } else {
                assert((oldest + i) % n == oldest + i - n);
            }
        }
    } else {
        assert(u.len() == e - oldest);
        assert forall|i: int| 0 <= i < u.len() implies #[trigger] u[i] == c[(oldest + i) % n] by {
            assert((oldest + i) % n == oldest + i);
        }
    }
}

/// A daily activity record at `p` of even length `L` whose bytes are all
/// there spans exactly `L` bytes: the previous record's length and its own
/// in the first four bytes, then twelve bytes of header in all, then one
/// activity change of two bytes after another up to its end.
pub proof fn law_daily_record_extent(d: Seq<u8>, p: int, v: CardActivityDailyRecord)
    requires
        0 <= p,
        CardActivityDailyRecord::parse_ok(d, p),
        CardActivityDailyRecord::parsed_as(d, p, v),
        p + be16(d, p + 2) <= d.len(),
        be16(d, p + 2) % 2 == 0,
    ensures
        v.activity_previous_record_length == (d[p] as int) * 256 + d[p + 1] as int,
        v.activity_record_length == (d[p + 2] as int) * 256 + d[p + 3] as int,
        CardActivityDailyRecord::parse_end(d, p) == p + v.activity_record_length,
        12 + 2 * v.activity_change_info@.len() == v.activity_record_length,
        forall|i: int|
            0 <= i < v.activity_change_info@.len() ==> #[trigger] ActivityChangeInfo::parsed_as(
                d,
                p + 12 + 2 * i,
                v.activity_change_info@[i],
            ),
{
}

/// The daily records read from `d` follow one another: the first starts at
/// the start of `d`, and each next one where the one before it ends, its
/// even record length on.
pub proof fn law_daily_records_consecutive(d: Seq<u8>)
    ensures
        daily_record_positions(d, 0).len() > 0 ==> daily_record_positions(d, 0)[0] == 0,
        forall|i: int|
            0 <= i && i + 1 < daily_record_positions(d, 0).len() && #[trigger] be16(
                d,
                daily_record_positions(d, 0)[i] + 2,
            ) % 2 == 0 ==> daily_record_positions(d, 0)[i + 1] == daily_record_positions(d, 0)[i]
                + be16(d, daily_record_positions(d, 0)[i] + 2),
{
    lemma_positions_follow(d, 0);
}

/// Each position of the daily records from `p` on is followed by the end of
/// the record read there.
proof fn lemma_positions_follow(d: Seq<u8>, p: int)
    ensures
        daily_record_positions(d, p).len() > 0 ==> daily_record_positions(d, p)[0] == p,
        forall|i: int|
            0 <= i && i + 1 < daily_record_positions(d, p).len() && #[trigger] be16(
                d,
                daily_record_positions(d, p)[i] + 2,
            ) % 2 == 0 ==> daily_record_positions(d, p)[i + 1] == daily_record_positions(d, p)[i]
                + be16(d, daily_record_positions(d, p)[i] + 2),
    decreases d.len() - p,
{
    let ps = daily_record_positions(d, p);
    if 0 <= p < d.len() && CardActivityDailyRecord::parse_ok(d, p) && p
        < CardActivityDailyRecord::parse_end(d, p) <= d.len() {
        let q = CardActivityDailyRecord::parse_end(d, p);
        lemma_positions_follow(d, q);
        let rest = daily_record_positions(d, q);
        assert(ps == seq![p] + rest);
        assert forall|i: int|
            0 <= i && i + 1 < ps.len() && #[trigger] be16(d, ps[i] + 2) % 2 == 0 implies ps[i + 1]
                == ps[i] + be16(d, ps[i] + 2) by {
            if i == 0 {
                assert(ps[1] == rest[0]);
                assert(rest[0] == q);
            } else {
                assert(ps[i] == rest[i - 1]);
                assert(ps[i + 1] == rest[i]);
            }
        }
    }
}

/// Numbers are stored most significant byte first: a `u16` or a distance in
/// two bytes, an odometer value in three, a `u32` in four.
pub proof fn law_numbers_big_endian(
    d: Seq<u8>,
    p: int,
    a: u16,
    b: u32,
    o: crate::dt::OdometerShort,
    k: crate::dt::Distance,
)
    requires
        0 <= p && p + 4 <= d.len(),
    ensures
        <u16 as Parse>::parsed_as(d, p, a) ==> a == d[p] * 256 + d[p + 1],
        <u32 as Parse>::parsed_as(d, p, b) ==> b == d[p] * 16777216 + d[p + 1] * 65536 + d[p + 2]
            * 256 + d[p + 3],
        crate::dt::OdometerShort::parsed_as(d, p, o) ==> o.0 == d[p] * 65536 + d[p + 1] * 256 + d[p + 2],
        crate::dt::Distance::parsed_as(d, p, k) ==> k.0 == d[p] * 256 + d[p + 1],
{
}

/// A record array of a generation 2 download read at `p` holds its record
/// type in the first byte, then the size of one record and the number of
/// records in two bytes each; record `i` is read from the `size` bytes that
/// start `5 + i * size` bytes after `p`, and the array ends after the last.
pub proof fn law_record_array_layout<T: Parse>(d: Seq<u8>, p: int, v: RecordArray<T>)
    requires
        0 <= p,
        RecordArray::<T>::parse_ok(d, p),
        RecordArray::<T>::parsed_as(d, p, v),
    ensures
        RecordTypeGen2::from_byte(d[p]) == Some(v.record_type),
        v.record_size == (d[p + 1] as int) * 256 + d[p + 2] as int,
        v.no_of_records == (d[p + 3] as int) * 256 + d[p + 4] as int,
        v.records@.len() == v.no_of_records,
        RecordArray::<T>::parse_end(d, p) == p + 5 + v.record_size * v.no_of_records,
        forall|i: int|
            0 <= i < v.records@.len() ==> #[trigger] T::parsed_as(
                d.subrange(p + 5 + i * v.record_size, p + 5 + (i + 1) * v.record_size),
                0,
                v.records@[i],
            ),
{
    assert forall|i: int| 0 <= i < v.records@.len() implies #[trigger] T::parsed_as(
        d.subrange(p + 5 + i * v.record_size, p + 5 + (i + 1) * v.record_size),
        0,
        v.records@[i],
    ) by {
        assert((i + 1) * v.record_size == i * v.record_size + v.record_size) by (nonlinear_arith);
        assert(T::parsed_as(crate::dt::gen2::array_chunk(d, p, i), 0, v.records@[i]));
    }
}

/// A card structure version is read from two bytes: `00 00` is generation 1,
/// `01 00` generation 2 and `01 01` generation 2 version 2.
pub proof fn law_card_structure_version_bytes(d: Seq<u8>, p: int, v: crate::dt::CardStructureVersion)
    requires
        0 <= p && p + 2 <= d.len(),
        crate::dt::CardStructureVersion::parsed_as(d, p, v),
    ensures
        d[p] == 0 && d[p + 1] == 0 ==> v == crate::dt::CardStructureVersion::Gen1,
        d[p] == 1 && d[p + 1] == 0 ==> v == crate::dt::CardStructureVersion::Gen2,
        d[p] == 1 && d[p + 1] == 1 ==> v == crate::dt::CardStructureVersion::Gen2V2,
{
}

/// The ability of a vehicle unit is read from the lowest bit of its byte:
/// 0 supports generation 1 cards only, 1 supports generation 2 cards.
pub proof fn law_vu_ability_low_bit(d: Seq<u8>, p: int, v: crate::dt::gen2::VuAbilityGen2)
    requires
        0 <= p < d.len(),
        crate::dt::gen2::VuAbilityGen2::parsed_as(d, p, v),
    ensures
        d[p] % 2 == 0 ==> v == crate::dt::gen2::VuAbilityGen2::SupportsGen1,
        d[p] % 2 == 1 ==> v == crate::dt::gen2::VuAbilityGen2::SupportsGen2,
{
    let b = d[p];
    assert(b & 1u8 == b % 2) by (bit_vector);
}

/// The fields of a generation 2 fault record at their byte offsets, where
/// its four card numbers (19 bytes each) are valid: the fault type, the
/// record purpose, the begin and the end time, the cards in the driver and
/// the co-driver slot at the begin and at the end, and from byte 86 on the
/// manufacturer's own data.
pub proof fn law_vu_fault_record_gen2_layout(d: Seq<u8>, p: int, v: crate::dt::gen2::VuFaultRecordGen2)
    requires
        0 <= p && p + 86 <= d.len(),
        crate::dt::gen2::VuFaultRecordGen2::parse_ok(d, p),
        crate::dt::gen2::VuFaultRecordGen2::parsed_as(d, p, v),
        crate::dt::gen2::FullCardNumberAndGenerationGen2::parse_ok(d, p + 10),
        crate::dt::gen2::FullCardNumberAndGenerationGen2::parse_ok(d, p + 29),
        crate::dt::gen2::FullCardNumberAndGenerationGen2::parse_ok(d, p + 48),
        crate::dt::gen2::FullCardNumberAndGenerationGen2::parse_ok(d, p + 67),
    ensures
        crate::dt::gen2::EventFaultTypeGen2::parsed_as(d, p, v.fault_type),
        crate::dt::EventFaultRecordPurpose::parsed_as(d, p + 1, v.fault_record_purpose),
        TimeReal::parsed_as(d, p + 2, v.fault_begin_time),
        TimeReal::parsed_as(d, p + 6, v.fault_end_time),
        v.card_number_and_gen_driver_slot_begin matches Some(c)
            && crate::dt::gen2::FullCardNumberAndGenerationGen2::parsed_as(d, p + 10, c),
        v.card_number_and_gen_codriver_slot_begin matches Some(c)
            && crate::dt::gen2::FullCardNumberAndGenerationGen2::parsed_as(d, p + 29, c),
        v.card_number_and_gen_driver_slot_end matches Some(c)
            && crate::dt::gen2::FullCardNumberAndGenerationGen2::parsed_as(d, p + 48, c),
        v.card_number_and_gen_codriver_slot_end matches Some(c)
            && crate::dt::gen2::FullCardNumberAndGenerationGen2::parsed_as(d, p + 67, c),
        crate::cursor::optional_as::<crate::dt::gen2::ManufacturerSpecificEventFaultDataGen2>(
            d,
            p + 86,
            v.manufacturer_specific_event_fault_data,
        ),
{
}

/// The fields of a generation 2 event record at their byte offsets, where
/// its four card numbers (19 bytes each) are valid: as in a fault record,
/// with the number of similar events in byte 86 and the manufacturer's own
/// data from byte 87 on.
pub proof fn law_vu_event_record_gen2_layout(d: Seq<u8>, p: int, v: crate::dt::gen2::VuEventRecordGen2)
    requires
        0 <= p && p + 87 <= d.len(),
        crate::dt::gen2::VuEventRecordGen2::parse_ok(d, p),
        crate::dt::gen2::VuEventRecordGen2::parsed_as(d, p, v),
        crate::dt::gen2::FullCardNumberAndGenerationGen2::parse_ok(d, p + 10),
        crate::dt::gen2::FullCardNumberAndGenerationGen2::parse_ok(d, p + 29),
        crate::dt::gen2::FullCardNumberAndGenerationGen2::parse_ok(d, p + 48),
        crate::dt::gen2::FullCardNumberAndGenerationGen2::parse_ok(d, p + 67),
    ensures
        crate::dt::gen2::EventFaultTypeGen2::parsed_as(d, p, v.event_type),
        crate::dt::EventFaultRecordPurpose::parsed_as(d, p + 1, v.event_record_purpose),
        TimeReal::parsed_as(d, p + 2, v.event_begin_time),
        crate::cursor::optional_as::<TimeReal>(d, p + 6, v.event_end_time),
        v.card_number_and_gen_driver_slot_begin matches Some(c)
            && crate::dt::gen2::FullCardNumberAndGenerationGen2::parsed_as(d, p + 10, c),
        v.card_number_and_gen_codriver_slot_begin matches Some(c)
            && crate::dt::gen2::FullCardNumberAndGenerationGen2::parsed_as(d, p + 29, c),
        v.card_number_and_gen_driver_slot_end matches Some(c)
            && crate::dt::gen2::FullCardNumberAndGenerationGen2::parsed_as(d, p + 48, c),
        v.card_number_and_gen_codriver_slot_end matches Some(c)
            && crate::dt::gen2::FullCardNumberAndGenerationGen2::parsed_as(d, p + 67, c),
        crate::dt::SimilarEventsNumber::parsed_as(d, p + 86, v.similar_events_number),
        crate::cursor::optional_as::<crate::dt::gen2::ManufacturerSpecificEventFaultDataGen2>(
            d,
            p + 87,
            v.manufacturer_specific_event_fault_data,
        ),
{
}

/// At most `n` of `n` attempts succeed before the first failure, and each
/// of those succeeds.
proof fn lemma_leading_prefix<T: Parse>(w: Seq<u8>, p: int, n: nat)
    ensures
        leading_successes::<T>(w, p, n) <= n,
        forall|j: int|
            0 <= j < leading_successes::<T>(w, p, n) ==> #[trigger] T::parse_ok(
                w,
                attempt_pos::<T>(w, p, j as nat),
            ),
    decreases n,
{
    if n > 0 {
        lemma_leading_prefix::<T>(w, p, (n - 1) as nat);
    }
}

/// Attempts to read records of `rec` bytes from `st` on, all succeeding,
/// start every `rec` bytes.
proof fn lemma_fixed_attempts<T: Parse>(w: Seq<u8>, st: int, rec: int, k: nat)
    requires
        0 <= st,
        rec > 0,
        st + k * rec <= w.len(),
        forall|q: int|
            0 <= q && q + rec <= w.len() && T::parse_ok(w, q) ==> #[trigger] T::parse_end(w, q) == q
                + rec,
        forall|j: int| 0 <= j < k ==> #[trigger] T::parse_ok(w, attempt_pos::<T>(w, st, j as nat)),
    ensures
        attempt_pos::<T>(w, st, k) == st + k * rec,
    decreases k,
{
    if k > 0 {
        let k1 = (k - 1) as nat;
        assert(k1 * rec + rec == k * rec) by (nonlinear_arith)
            requires
                k1 == k - 1,
        ;
        assert(0 <= k1 * rec) by (nonlinear_arith)
            requires
                rec > 0,
        ;
        assert forall|j: int| 0 <= j < k1 implies #[trigger] T::parse_ok(
            w,
            attempt_pos::<T>(w, st, j as nat),
        ) by {
            assert(T::parse_ok(w, attempt_pos::<T>(w, st, j as nat)));
        }
        lemma_fixed_attempts::<T>(w, st, rec, k1);
        let q = attempt_pos::<T>(w, st, k1);
        assert(T::parse_ok(w, attempt_pos::<T>(w, st, k1 as int as nat)));
        assert(T::parse_end(w, q) == q + rec);
        assert(attempt_pos::<T>(w, st, k) == T::parse_end(w, q));
    } else {
        assert(k * rec == 0) by (nonlinear_arith)
            requires
                k == 0,
        ;
    }
}

/// The records read one after another from byte 2 of `w`, up to the first
/// that fails among the `n` that fit, are at most `n` and stand every `rec`
/// bytes.
proof fn lemma_fixed_size_records<T: Parse>(w: Seq<u8>, rec: int, n: nat, v: Seq<T>)
    requires
        rec > 0,
        2 + n * rec <= w.len(),
        forall|q: int|
            0 <= q && q + rec <= w.len() && T::parse_ok(w, q) ==> #[trigger] T::parse_end(w, q) == q
                + rec,
        values_at(w, attempt_positions::<T>(w, 2, leading_successes::<T>(w, 2, n)), v),
    ensures
        v.len() <= n,
        forall|i: int| 0 <= i < v.len() ==> #[trigger] T::parsed_as(w, 2 + rec * i, v[i]),
{
    lemma_leading_prefix::<T>(w, 2, n);
    let l = leading_successes::<T>(w, 2, n);
    assert forall|i: int| 0 <= i < v.len() implies #[trigger] T::parsed_as(w, 2 + rec * i, v[i]) by {
        assert(i * rec <= n * rec) by (nonlinear_arith)
            requires
                i < n,
                rec > 0,
        ;
        assert(rec * i == i * rec) by (nonlinear_arith);
        assert forall|j: int| 0 <= j < i implies #[trigger] T::parse_ok(
            w,
            attempt_pos::<T>(w, 2, j as nat),
        ) by {
            assert(j < l);
        }
        lemma_fixed_attempts::<T>(w, 2, rec, i as nat);
        assert(attempt_positions::<T>(w, 2, l)[i] == attempt_pos::<T>(w, 2, i as nat));
    }
}

/// A border crossings file of `size` bytes holds the pointer to the newest
/// record in its first two bytes, then records of 17 bytes one after
/// another, as many as were read before the first that fails.
pub proof fn law_card_border_crossings_layout(d: Seq<u8>, p: int, size: int, v: crate::dt::gen2v2::CardBorderCrossings)
    requires
        0 <= p && 2 <= size && p + size <= d.len(),
        crate::dt::gen2v2::CardBorderCrossings::dyn_as(d, p, size, v),
    ensures
        v.border_crossing_pointer_newest_record == (d[p] as int) * 256 + d[p + 1] as int,
        2 + 17 * v.card_border_crossing_records@.len() <= size,
        forall|i: int| 0 <= i < v.card_border_crossing_records@.len() ==> #[trigger] crate::dt::gen2v2::CardBorderCrossingRecord::parsed_as(
            d.subrange(p, p + size), 2 + 17 * i, v.card_border_crossing_records@[i]),
{
    let w = d.subrange(p, p + size);
    let n = ((size - 2) / 17) as nat;
    assert(2 + n * 17 <= w.len());
    lemma_fixed_size_records::<crate::dt::gen2v2::CardBorderCrossingRecord>(w, 17, n, v.card_border_crossing_records@);
}

/// A load and unload operations file of `size` bytes holds the pointer to
/// the newest record in its first two bytes, then records of 20 bytes one
/// after another, as many as were read before the first that fails.
pub proof fn law_card_load_unload_operations_layout(d: Seq<u8>, p: int, size: int, v: crate::dt::gen2v2::CardLoadUnloadOperations)
    requires
        0 <= p && 2 <= size && p + size <= d.len(),
        crate::dt::gen2v2::CardLoadUnloadOperations::dyn_as(d, p, size, v),
    ensures
        v.load_unload_pointer_newest_record == (d[p] as int) * 256 + d[p + 1] as int,
        2 + 20 * v.card_load_unload_records@.len() <= size,
        forall|i: int| 0 <= i < v.card_load_unload_records@.len() ==> #[trigger] crate::dt::gen2v2::CardLoadUnloadRecord::parsed_as(
            d.subrange(p, p + size), 2 + 20 * i, v.card_load_unload_records@[i]),
{
    let w = d.subrange(p, p + size);
    let n = ((size - 2) / 20) as nat;
    assert(2 + n * 20 <= w.len());
    lemma_fixed_size_records::<crate::dt::gen2v2::CardLoadUnloadRecord>(w, 20, n, v.card_load_unload_records@);
}

/// A load type entries file of `size` bytes holds the pointer to the newest
/// record in its first two bytes, then records of 5 bytes one after
/// another, as many as were read before the first that fails.
pub proof fn law_card_load_type_entries_layout(d: Seq<u8>, p: int, size: int, v: crate::dt::gen2v2::CardLoadTypeEntries)
    requires
        0 <= p && 2 <= size && p + size <= d.len(),
        crate::dt::gen2v2::CardLoadTypeEntries::dyn_as(d, p, size, v),
    ensures
        v.load_type_pointer_newest_record == (d[p] as int) * 256 + d[p + 1] as int,
        2 + 5 * v.card_load_type_entry_records@.len() <= size,
        forall|i: int| 0 <= i < v.card_load_type_entry_records@.len() ==> #[trigger] crate::dt::gen2v2::CardLoadTypeEntryRecord::parsed_as(
            d.subrange(p, p + size), 2 + 5 * i, v.card_load_type_entry_records@[i]),
{
    let w = d.subrange(p, p + size);
    let n = ((size - 2) / 5) as nat;
    assert(2 + n * 5 <= w.len());
    lemma_fixed_size_records::<crate::dt::gen2v2::CardLoadTypeEntryRecord>(w, 5, n, v.card_load_type_entry_records@);
}

/// A places authentication file of `size` bytes holds the pointer to the
/// newest record in its first two bytes, then records of 5 bytes one after
/// another, as many as were read before the first that fails.
pub proof fn law_card_places_auth_layout(d: Seq<u8>, p: int, size: int, v: crate::dt::gen2v2::CardPlacesAuthDailyWorkPeriod)
    requires
        0 <= p && 2 <= size && p + size <= d.len(),
        crate::dt::gen2v2::CardPlacesAuthDailyWorkPeriod::dyn_as(d, p, size, v),
    ensures
        v.place_auth_pointer_newest_record == (d[p] as int) * 256 + d[p + 1] as int,
        2 + 5 * v.place_auth_status_records@.len() <= size,
        forall|i: int| 0 <= i < v.place_auth_status_records@.len() ==> #[trigger] crate::dt::gen2v2::PlaceAuthStatusRecord::parsed_as(
            d.subrange(p, p + size), 2 + 5 * i, v.place_auth_status_records@[i]),
{
    let w = d.subrange(p, p + size);
    let n = ((size - 2) / 5) as nat;
    assert(2 + n * 5 <= w.len());
    lemma_fixed_size_records::<crate::dt::gen2v2::PlaceAuthStatusRecord>(w, 5, n, v.place_auth_status_records@);
}

/// A GNSS authenticated accumulated driving file of `size` bytes holds the
/// pointer to the newest record in its first two bytes, then records of 5
/// bytes one after another, as many as were read before the first that fails.
pub proof fn law_gnss_auth_accumulated_driving_layout(d: Seq<u8>, p: int, size: int, v: crate::dt::gen2v2::GNSSAuthAccumulatedDriving)
    requires
        0 <= p && 2 <= size && p + size <= d.len(),
        crate::dt::gen2v2::GNSSAuthAccumulatedDriving::dyn_as(d, p, size, v),
    ensures
        v.gnss_auth_ad_pointer_newest_record == (d[p] as int) * 256 + d[p + 1] as int,
        2 + 5 * v.gnss_auth_status_ad_records@.len() <= size,
        forall|i: int| 0 <= i < v.gnss_auth_status_ad_records@.len() ==> #[trigger] crate::dt::gen2v2::GNSSAuthStatusADRecord::parsed_as(
            d.subrange(p, p + size), 2 + 5 * i, v.gnss_auth_status_ad_records@[i]),
{
    let w = d.subrange(p, p + size);
    let n = ((size - 2) / 5) as nat;
    assert(2 + n * 5 <= w.len());
    lemma_fixed_size_records::<crate::dt::gen2v2::GNSSAuthStatusADRecord>(w, 5, n, v.gnss_auth_status_ad_records@);
}

/// A list of `n` records of `rec` bytes each that all succeed, read from
/// `st` on: record `i` stands `rec * i` bytes after `st`.
proof fn lemma_counted_records<T: Parse>(d: Seq<u8>, st: int, rec: int, n: nat, v: Seq<T>)
    requires
        0 <= st,
        rec > 0,
        st + n * rec <= d.len(),
        forall|q: int|
            0 <= q && q + rec <= d.len() && T::parse_ok(d, q) ==> #[trigger] T::parse_end(d, q) == q
                + rec,
        leading_successes::<T>(d, st, n) == n,
        values_at(d, attempt_positions::<T>(d, st, n), v),
    ensures
        v.len() == n,
        forall|i: int| 0 <= i < n ==> #[trigger] T::parsed_as(d, st + rec * i, v[i]),
{
    lemma_leading_prefix::<T>(d, st, n);
    assert forall|i: int| 0 <= i < n implies #[trigger] T::parsed_as(d, st + rec * i, v[i]) by {
        assert(i * rec <= n * rec) by (nonlinear_arith)
            requires
                i < n,
                rec > 0,
        ;
        assert(rec * i == i * rec) by (nonlinear_arith);
        lemma_fixed_attempts::<T>(d, st, rec, i as nat);
        assert(attempt_positions::<T>(d, st, n)[i] == attempt_pos::<T>(d, st, i as nat));
    }
}

/// The company locks of a vehicle unit download: their number in the first
/// byte, then that many records of 98 bytes one after another.
pub proof fn law_vu_company_locks_data_counted(d: Seq<u8>, p: int, v: crate::dt::gen1::VuCompanyLocksData)
    requires
        0 <= p,
        crate::dt::gen1::VuCompanyLocksData::parse_ok(d, p),
        crate::dt::gen1::VuCompanyLocksData::parsed_as(d, p, v),
        p + 1 + (d[p] as int) * 98 <= d.len(),
    ensures
        v.no_of_locks == d[p] as int,
        v.vu_company_locks_records@.len() == v.no_of_locks,
        forall|i: int| 0 <= i < v.vu_company_locks_records@.len() ==> #[trigger] <crate::dt::gen1::VuCompanyLocksRecord as Parse>::parsed_as(d, p + 1 + 98 * i, v.vu_company_locks_records@[i]),
{
    lemma_counted_records::<crate::dt::gen1::VuCompanyLocksRecord>(d, p + 1, 98, d[p] as nat, v.vu_company_locks_records@);
}

/// The controls of a vehicle unit download: their number in the first
/// byte, then that many records of 31 bytes one after another.
pub proof fn law_vu_control_activity_data_counted(d: Seq<u8>, p: int, v: crate::dt::gen1::VuControlActivityData)
    requires
        0 <= p,
        crate::dt::gen1::VuControlActivityData::parse_ok(d, p),
        crate::dt::gen1::VuControlActivityData::parsed_as(d, p, v),
        p + 1 + (d[p] as int) * 31 <= d.len(),
    ensures
        v.no_of_controls == d[p] as int,
        v.vu_control_activity_records@.len() == v.no_of_controls,
        forall|i: int| 0 <= i < v.vu_control_activity_records@.len() ==> #[trigger] <crate::dt::gen1::VuControlActivityRecord as Parse>::parsed_as(d, p + 1 + 31 * i, v.vu_control_activity_records@[i]),
{
    lemma_counted_records::<crate::dt::gen1::VuControlActivityRecord>(d, p + 1, 31, d[p] as nat, v.vu_control_activity_records@);
}

/// The card insertions and withdrawals of a vehicle unit download: their number in the first
/// two bytes, then that many records of 129 bytes one after another.
pub proof fn law_vu_card_i_w_data_counted(d: Seq<u8>, p: int, v: crate::dt::gen1::VuCardIWData)
    requires
        0 <= p,
        crate::dt::gen1::VuCardIWData::parse_ok(d, p),
        crate::dt::gen1::VuCardIWData::parsed_as(d, p, v),
        p + 2 + ((d[p] as int) * 256 + d[p + 1] as int) * 129 <= d.len(),
    ensures
        v.no_of_iw_records == (d[p] as int) * 256 + d[p + 1] as int,
        v.vu_card_iw_records@.len() == v.no_of_iw_records,
        forall|i: int| 0 <= i < v.vu_card_iw_records@.len() ==> #[trigger] <crate::dt::gen1::VuCardIWRecord as Parse>::parsed_as(d, p + 2 + 129 * i, v.vu_card_iw_records@[i]),
{
    lemma_counted_records::<crate::dt::gen1::VuCardIWRecord>(d, p + 2, 129, (d[p] * 256 + d[p + 1]) as nat, v.vu_card_iw_records@);
}

/// The activity changes of a vehicle unit download: their number in the first
/// two bytes, then that many records of 2 bytes one after another.
pub proof fn law_vu_activity_daily_data_counted(d: Seq<u8>, p: int, v: crate::dt::gen1::VuActivityDailyData)
    requires
        0 <= p,
        crate::dt::gen1::VuActivityDailyData::parse_ok(d, p),
        crate::dt::gen1::VuActivityDailyData::parsed_as(d, p, v),
        p + 2 + ((d[p] as int) * 256 + d[p + 1] as int) * 2 <= d.len(),
    ensures
        v.no_of_activity_changes == (d[p] as int) * 256 + d[p + 1] as int,
        v.activity_change_infos@.len() == v.no_of_activity_changes,
        forall|i: int| 0 <= i < v.activity_change_infos@.len() ==> #[trigger] <crate::dt::ActivityChangeInfo as Parse>::parsed_as(d, p + 2 + 2 * i, v.activity_change_infos@[i]),
{
    lemma_counted_records::<crate::dt::ActivityChangeInfo>(d, p + 2, 2, (d[p] * 256 + d[p + 1]) as nat, v.activity_change_infos@);
}

/// The places of a vehicle unit download: their number in the first
/// byte, then that many records of 28 bytes one after another.
pub proof fn law_vu_place_daily_work_period_data_counted(d: Seq<u8>, p: int, v: crate::dt::gen1::VuPlaceDailyWorkPeriodData)
    requires
        0 <= p,
        crate::dt::gen1::VuPlaceDailyWorkPeriodData::parse_ok(d, p),
        crate::dt::gen1::VuPlaceDailyWorkPeriodData::parsed_as(d, p, v),
        p + 1 + (d[p] as int) * 28 <= d.len(),
    ensures
        v.no_of_place_records == d[p] as int,
        v.vu_place_daily_work_period_records@.len() == v.no_of_place_records,
        forall|i: int| 0 <= i < v.vu_place_daily_work_period_records@.len() ==> #[trigger] <crate::dt::gen1::VuPlaceDailyWorkPeriodRecord as Parse>::parsed_as(d, p + 1 + 28 * i, v.vu_place_daily_work_period_records@[i]),
{
    lemma_counted_records::<crate::dt::gen1::VuPlaceDailyWorkPeriodRecord>(d, p + 1, 28, d[p] as nat, v.vu_place_daily_work_period_records@);
}

/// The specific conditions of a vehicle unit download: their number in the first
/// two bytes, then that many records of 5 bytes one after another.
pub proof fn law_vu_specific_condition_data_counted(d: Seq<u8>, p: int, v: crate::dt::gen1::VuSpecificConditionData)
    requires
        0 <= p,
        crate::dt::gen1::VuSpecificConditionData::parse_ok(d, p),
        crate::dt::gen1::VuSpecificConditionData::parsed_as(d, p, v),
        p + 2 + ((d[p] as int) * 256 + d[p + 1] as int) * 5 <= d.len(),
    ensures
        v.no_of_specific_conditions == (d[p] as int) * 256 + d[p + 1] as int,
        v.specific_condition_records@.len() == v.no_of_specific_conditions,
        forall|i: int| 0 <= i < v.specific_condition_records@.len() ==> #[trigger] <crate::dt::gen1::SpecificConditionRecord as Parse>::parsed_as(d, p + 2 + 5 * i, v.specific_condition_records@[i]),
{
    lemma_counted_records::<crate::dt::gen1::SpecificConditionRecord>(d, p + 2, 5, (d[p] * 256 + d[p + 1]) as nat, v.specific_condition_records@);
}

/// The faults of a vehicle unit download: their number in the first
/// byte, then that many records of 82 bytes one after another.
pub proof fn law_vu_fault_data_counted(d: Seq<u8>, p: int, v: crate::dt::gen1::VuFaultData)
    requires
        0 <= p,
        crate::dt::gen1::VuFaultData::parse_ok(d, p),
        crate::dt::gen1::VuFaultData::parsed_as(d, p, v),
        p + 1 + (d[p] as int) * 82 <= d.len(),
    ensures
        v.no_of_vu_fault_records == d[p] as int,
        v.vu_fault_records@.len() == v.no_of_vu_fault_records,
        forall|i: int| 0 <= i < v.vu_fault_records@.len() ==> #[trigger] <crate::dt::gen1::VuFaultRecord as Parse>::parsed_as(d, p + 1 + 82 * i, v.vu_fault_records@[i]),
{
    lemma_counted_records::<crate::dt::gen1::VuFaultRecord>(d, p + 1, 82, d[p] as nat, v.vu_fault_records@);
}

/// The events of a vehicle unit download: their number in the first
/// byte, then that many records of 83 bytes one after another.
pub proof fn law_vu_event_data_counted(d: Seq<u8>, p: int, v: crate::dt::gen1::VuEventData)
    requires
        0 <= p,
        crate::dt::gen1::VuEventData::parse_ok(d, p),
        crate::dt::gen1::VuEventData::parsed_as(d, p, v),
        p + 1 + (d[p] as int) * 83 <= d.len(),
    ensures
        v.no_of_vu_event_records == d[p] as int,
        v.vu_event_records@.len() == v.no_of_vu_event_records,
        forall|i: int| 0 <= i < v.vu_event_records@.len() ==> #[trigger] <crate::dt::gen1::VuEventRecord as Parse>::parsed_as(d, p + 1 + 83 * i, v.vu_event_records@[i]),
{
    lemma_counted_records::<crate::dt::gen1::VuEventRecord>(d, p + 1, 83, d[p] as nat, v.vu_event_records@);
}

/// The over speeding events of a vehicle unit download: their number in the first
/// byte, then that many records of 31 bytes one after another.
pub proof fn law_vu_over_speeding_event_data_counted(d: Seq<u8>, p: int, v: crate::dt::gen1::VuOverSpeedingEventData)
    requires
        0 <= p,
        crate::dt::gen1::VuOverSpeedingEventData::parse_ok(d, p),
        crate::dt::gen1::VuOverSpeedingEventData::parsed_as(d, p, v),
        p + 1 + (d[p] as int) * 31 <= d.len(),
    ensures
        v.no_of_vu_over_speeding_events == d[p] as int,
        v.vu_over_speeding_event_records@.len() == v.no_of_vu_over_speeding_events,
        forall|i: int| 0 <= i < v.vu_over_speeding_event_records@.len() ==> #[trigger] <crate::dt::gen1::VuOverSpeedingEventRecord as Parse>::parsed_as(d, p + 1 + 31 * i, v.vu_over_speeding_event_records@[i]),
{
    lemma_counted_records::<crate::dt::gen1::VuOverSpeedingEventRecord>(d, p + 1, 31, d[p] as nat, v.vu_over_speeding_event_records@);
}

/// The time adjustments of a vehicle unit download: their number in the first
/// byte, then that many records of 98 bytes one after another.
pub proof fn law_vu_time_adjustment_data_counted(d: Seq<u8>, p: int, v: crate::dt::gen1::VuTimeAdjustmentData)
    requires
        0 <= p,
        crate::dt::gen1::VuTimeAdjustmentData::parse_ok(d, p),
        crate::dt::gen1::VuTimeAdjustmentData::parsed_as(d, p, v),
        p + 1 + (d[p] as int) * 98 <= d.len(),
    ensures
        v.no_of_vu_time_adj_records == d[p] as int,
        v.vu_time_adjustment_records@.len() == v.no_of_vu_time_adj_records,
        forall|i: int| 0 <= i < v.vu_time_adjustment_records@.len() ==> #[trigger] <crate::dt::gen1::VuTimeAdjustmentRecord as Parse>::parsed_as(d, p + 1 + 98 * i, v.vu_time_adjustment_records@[i]),
{
    lemma_counted_records::<crate::dt::gen1::VuTimeAdjustmentRecord>(d, p + 1, 98, d[p] as nat, v.vu_time_adjustment_records@);
}

/// The detailed speed blocks of a vehicle unit download: their number in the first
/// byte, then that many records of 64 bytes one after another.
pub proof fn law_vu_detailed_speed_data_counted(d: Seq<u8>, p: int, v: crate::dt::gen1::VuDetailedSpeedData)
    requires
        0 <= p,
        crate::dt::gen1::VuDetailedSpeedData::parse_ok(d, p),
        crate::dt::gen1::VuDetailedSpeedData::parsed_as(d, p, v),
        p + 1 + (d[p] as int) * 64 <= d.len(),
    ensures
        v.no_of_speed_blocks == d[p] as int,
        v.vu_detailed_speed_records@.len() == v.no_of_speed_blocks,
        forall|i: int| 0 <= i < v.vu_detailed_speed_records@.len() ==> #[trigger] <crate::dt::VuDetailedSpeedBlock as Parse>::parsed_as(d, p + 1 + 64 * i, v.vu_detailed_speed_records@[i]),
{
    lemma_counted_records::<crate::dt::VuDetailedSpeedBlock>(d, p + 1, 64, d[p] as nat, v.vu_detailed_speed_records@);
}

/// The calibrations of a vehicle unit download: their number in the first
/// byte, then that many records of 167 bytes one after another.
pub proof fn law_vu_calibration_data_counted(d: Seq<u8>, p: int, v: crate::dt::gen1::VuCalibrationData)
    requires
        0 <= p,
        crate::dt::gen1::VuCalibrationData::parse_ok(d, p),
        crate::dt::gen1::VuCalibrationData::parsed_as(d, p, v),
        p + 1 + (d[p] as int) * 167 <= d.len(),
    ensures
        v.no_of_vu_calibration_records == d[p] as int,
        v.vu_calibration_records@.len() == v.no_of_vu_calibration_records,
        forall|i: int| 0 <= i < v.vu_calibration_records@.len() ==> #[trigger] <crate::dt::gen1::VuCalibrationRecord as Parse>::parsed_as(d, p + 1 + 167 * i, v.vu_calibration_records@[i]),
{
    lemma_counted_records::<crate::dt::gen1::VuCalibrationRecord>(d, p + 1, 167, d[p] as nat, v.vu_calibration_records@);
}

/// An ITS consent record holds a card number of 19 bytes and, in the byte
/// after it, the consent: given exactly when that byte is not zero.
pub proof fn law_its_consent_byte(d: Seq<u8>, p: int, v: crate::dt::gen2::VuITSConsentRecordGen2)
    requires
        0 <= p && p + 20 <= d.len(),
        crate::dt::gen2::FullCardNumberAndGenerationGen2::parse_ok(d, p),
        crate::dt::gen2::VuITSConsentRecordGen2::parsed_as(d, p, v),
    ensures
        v.card_number_and_gen matches Some(c) && crate::dt::gen2::FullCardNumberAndGenerationGen2::parsed_as(d, p, c),
        v.consent <==> d[p + 19] != 0,
{
}

} // verus!
