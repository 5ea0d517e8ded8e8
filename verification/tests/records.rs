use tachograph_parser::cursor::{Cursor, Parse, ParseDyn, ParseError};
use tachograph_parser::dt::gen1::{
    CardPlaceDailyWorkPeriod, EquipmentType, FullCardNumber, SpecificConditionType,
    SpecificConditions,
};
use tachograph_parser::dt::gen2::{
    CardVehiclesUsedGen2, ControlTypeGen2, FullCardNumberAndGenerationGen2, GNSSAccuracyGen2,
    GenerationGen2, GeoCoordinatesGen2, RecordArray, RecordTypeGen2, SealDataVuGen2,
    SignatureGen2, SpecificConditionsGen2, VuAbilityGen2, VuCardRecordGen2,
};
use tachograph_parser::dt::gen2v2::{CardLoadTypeEntries, LoadType};
use tachograph_parser::dt::{CardNumber, TimeReal};

fn driver_number() -> Vec<u8> {
    let mut v = b"D1234567890123".to_vec();
    v.extend_from_slice(b"01");
    v
}

#[test]
fn record_array_reads_each_record_from_its_own_bytes() {
    // type 0x06 (DateOfDayDownloaded), size 5, count 2: each record holds a
    // TimeReal and one more byte that is passed over.
    let data = [0x06, 0x00, 0x05, 0x00, 0x02, 0, 0, 0, 1, 0xEE, 0, 0, 0, 2, 0xEE, 0x99];
    let mut c = Cursor::new(&data);
    let a = RecordArray::<TimeReal>::parse(&mut c).unwrap();
    assert_eq!(a.record_type, RecordTypeGen2::DateOfDayDownloaded);
    assert_eq!(a.record_size, 5);
    assert_eq!(a.no_of_records, 2);
    assert_eq!(c.position(), 15);
    let v = a.into_inner();
    assert_eq!(v.len(), 2);
    assert_eq!(v[0].timestamp(), 1);
    assert_eq!(v[1].timestamp(), 2);
}

#[test]
fn record_array_refuses_type_zero_and_size_zero() {
    let mut c = Cursor::new(&[0x00, 0x00, 0x04, 0x00, 0x00]);
    assert_eq!(RecordArray::<TimeReal>::parse(&mut c).unwrap_err(), ParseError::InvalidValue);
    assert_eq!(c.position(), 1);
    let mut c = Cursor::new(&[0x06, 0x00, 0x00, 0x00, 0x03]);
    assert_eq!(RecordArray::<TimeReal>::parse(&mut c).unwrap_err(), ParseError::InvalidValue);
}

#[test]
fn record_array_fails_when_a_record_is_short() {
    // size 3 cannot hold a TimeReal
    let mut c = Cursor::new(&[0x06, 0x00, 0x03, 0x00, 0x01, 1, 2, 3]);
    assert_eq!(RecordArray::<TimeReal>::parse(&mut c).unwrap_err(), ParseError::UnexpectedEnd);
    assert_eq!(c.position(), 8);
}

#[test]
fn record_array_of_signatures_takes_their_length_from_the_array() {
    let mut data = vec![0x08, 0x00, 0x40, 0x00, 0x01];
    data.extend(std::iter::repeat(0xAB).take(64));
    let mut c = Cursor::new(&data);
    let v = RecordArray::<SignatureGen2>::parse_dyn_size(&mut c).unwrap().into_inner();
    assert_eq!(v.len(), 1);
    assert_eq!(v[0].value.len(), 64);
}

#[test]
fn signature_size_is_checked() {
    let data = vec![0u8; 200];
    let mut c = Cursor::new(&data);
    assert_eq!(SignatureGen2::parse_dyn_size(&mut c, 63).unwrap_err(), ParseError::InvalidValue);
    assert_eq!(c.position(), 0);
    assert_eq!(SignatureGen2::parse_dyn_size(&mut c, 133).unwrap_err(), ParseError::InvalidValue);
    assert_eq!(SignatureGen2::parse_dyn_size(&mut c, 132).unwrap().value.len(), 132);
}

#[test]
fn geo_coordinates_are_signed_24_bit() {
    // 50 deg 30.5 min = 050305 ; -4 deg 12.0 min = -004120
    let lat: i32 = 50305;
    let lon: i32 = -4120;
    let mut data = Vec::new();
    data.extend_from_slice(&lat.to_be_bytes()[1..]);
    data.extend_from_slice(&(lon as u32 & 0xFFFFFF).to_be_bytes()[1..]);
    let mut c = Cursor::new(&data);
    let g = GeoCoordinatesGen2::parse(&mut c).unwrap();
    assert_eq!(g.latitude, 50305);
    assert_eq!(g.longitude, -4120);
    assert_eq!(GeoCoordinatesGen2::decode_coordinate(g.latitude), Some((50, 305)));
    assert_eq!(GeoCoordinatesGen2::decode_coordinate(g.longitude), Some((-4, 120)));
    assert_eq!(GeoCoordinatesGen2::decode_coordinate(-500), Some((0, 500)));
    assert_eq!(GeoCoordinatesGen2::decode_coordinate(1_000_000), None);
}

#[test]
fn gnss_accuracy_above_100_is_refused() {
    let mut c = Cursor::new(&[100]);
    assert_eq!(GNSSAccuracyGen2::parse(&mut c).unwrap().value, 100);
    let mut c = Cursor::new(&[101]);
    assert_eq!(GNSSAccuracyGen2::parse(&mut c).unwrap_err(), ParseError::InvalidValue);
}

#[test]
fn control_type_gen2_bits() {
    let mut c = Cursor::new(&[0b1001_1000]);
    let t = ControlTypeGen2::parse(&mut c).unwrap();
    assert!(t.card_downloading);
    assert!(!t.vu_downloading);
    assert!(!t.printing);
    assert!(t.display);
    assert!(t.roadside_calibration_checking);
}

#[test]
fn vu_ability_is_the_lowest_bit() {
    let mut c = Cursor::new(&[0x01, 0xFE]);
    assert_eq!(VuAbilityGen2::parse(&mut c).unwrap(), VuAbilityGen2::SupportsGen2);
    assert_eq!(VuAbilityGen2::parse(&mut c).unwrap(), VuAbilityGen2::SupportsGen1);
}

#[test]
fn full_card_number_and_generation() {
    let mut data = vec![0x01, 0x0D];
    data.extend(driver_number());
    data.push(0x02);
    let mut c = Cursor::new(&data);
    let v = FullCardNumberAndGenerationGen2::parse(&mut c).unwrap();
    assert_eq!(v.generation, GenerationGen2::Generation2);
    assert!(matches!(v.full_card_number.card_number, CardNumber::Driver { .. }));
    let last = data.len() - 1;
    data[last] = 0x07;
    let mut c = Cursor::new(&data);
    assert_eq!(FullCardNumberAndGenerationGen2::parse(&mut c).unwrap_err(), ParseError::InvalidValue);
}

#[test]
fn full_card_number_gen1_refuses_reserved_type() {
    let mut data = vec![0x09, 0x0D];
    data.extend(driver_number());
    let mut c = Cursor::new(&data);
    assert_eq!(FullCardNumber::parse(&mut c).unwrap_err(), ParseError::InvalidValue);
    data[0] = 0x01;
    let mut c = Cursor::new(&data);
    assert_eq!(FullCardNumber::parse(&mut c).unwrap().card_type, EquipmentType::DriverCard);
}

#[test]
fn vu_card_record_reads_a_card_number_only_after_a_card() {
    // no valid card number and generation (reserved generation): no card number follows
    let mut data = vec![0x01, 0x0D];
    data.extend(driver_number());
    data.push(0x00);
    data.extend_from_slice(&[0, 0, 0, 1, 0x01, 0x24, 0x01, 0x10]);
    data.extend_from_slice(&[0x01, 0x00]);
    let mut c = Cursor::new(&data);
    let r = VuCardRecordGen2::parse(&mut c).unwrap();
    assert!(r.card_number_and_generation_information.is_none());
    assert!(r.card_number.is_none());
    assert_eq!(c.position(), data.len());
    // a driver card: its number is read after the structure version
    let mut data = vec![0x01, 0x0D];
    data.extend(driver_number());
    data.push(0x02);
    data.extend_from_slice(&[0, 0, 0, 1, 0x01, 0x24, 0x01, 0x10]);
    data.extend_from_slice(&[0x01, 0x00]);
    data.extend(driver_number());
    let mut c = Cursor::new(&data);
    let r = VuCardRecordGen2::parse(&mut c).unwrap();
    assert!(matches!(r.card_number, Some(CardNumber::Driver { .. })));
    assert_eq!(c.position(), data.len());
}

fn seal(equipment: u8) -> Vec<u8> {
    let mut v = vec![equipment];
    v.extend_from_slice(&[0x10, 0x20]);
    v.extend_from_slice(b"SEAL0001");
    v
}

#[test]
fn unused_seals_are_left_out() {
    let mut data = Vec::new();
    for t in [6, 16, 7, 16, 16] {
        data.extend(seal(t));
    }
    let mut c = Cursor::new(&data);
    let s = SealDataVuGen2::parse(&mut c).unwrap();
    assert_eq!(s.seal_records.len(), 2);
    assert_eq!(c.position(), 55);
    let mut c = Cursor::new(&data[..50]);
    assert_eq!(SealDataVuGen2::parse(&mut c).unwrap_err(), ParseError::UnexpectedEnd);
}

fn condition(t: u32, kind: u8) -> Vec<u8> {
    let mut v = t.to_be_bytes().to_vec();
    v.push(kind);
    v
}

#[test]
fn specific_conditions_gen1_are_sorted_ascending_and_reserved_ones_dropped() {
    let mut data = Vec::new();
    data.extend(condition(300, 1));
    data.extend(condition(100, 2));
    data.extend(condition(200, 9));
    data.extend(condition(0, 1));
    let mut c = Cursor::new(&data);
    let s = SpecificConditions::parse_dyn_size(&mut c, data.len()).unwrap();
    let times: Vec<u32> = s.specific_condition_records.iter().map(|r| r.entry_time.0).collect();
    assert_eq!(times, vec![100, 300]);
    assert_eq!(s.specific_condition_records[0].specific_condition_type, SpecificConditionType::OutOfScopeEnd);
}

#[test]
fn specific_conditions_gen2_are_sorted_descending() {
    let mut data = vec![0x00, 0x02];
    data.extend(condition(100, 1));
    data.extend(condition(300, 2));
    data.extend(condition(200, 3));
    let size = data.len() - 2;
    let mut c = Cursor::new(&data);
    let s = SpecificConditionsGen2::parse_dyn_size(&mut c, size).unwrap();
    assert_eq!(s.condition_pointer_newest_record, 2);
    let times: Vec<u32> = s.specific_condition_records.iter().map(|r| r.entry_time.0).collect();
    assert_eq!(times, vec![300, 200, 100]);
}

#[test]
fn equal_times_keep_their_order() {
    let mut data = vec![0x00];
    for (t, region) in [(50u32, 3u8), (10, 1), (50, 2)] {
        data.extend_from_slice(&t.to_be_bytes());
        data.extend_from_slice(&[0x00, 0x0D, region, 0, 0, 1]);
    }
    let size = data.len() - 1;
    let mut c = Cursor::new(&data);
    let p = CardPlaceDailyWorkPeriod::parse_dyn_size(&mut c, size).unwrap();
    let times: Vec<u32> = p.place_records.iter().map(|r| r.entry_time.0).collect();
    assert_eq!(times, vec![10, 50, 50]);
    let regions: Vec<String> = p.place_records.iter().map(|r| format!("{:?}", r.daily_work_period_region)).collect();
    assert_eq!(regions, vec!["Andalucia", "Asturias", "Aragon"]);
}

fn vehicle_record(first_use: u32) -> Vec<u8> {
    let mut v = vec![0, 0, 1, 0, 0, 2];
    v.extend_from_slice(&first_use.to_be_bytes());
    v.extend_from_slice(&(first_use + 1).to_be_bytes());
    v.push(0x0D);
    v.push(0x01);
    v.extend_from_slice(b"AB123       X");
    v.extend_from_slice(&[0, 7]);
    v.extend_from_slice(b"WDB12345678901234");
    v
}

#[test]
fn vehicles_used_gen2_stops_at_the_newest_record() {
    let mut data = vec![0x00, 0x02];
    for t in [10, 20, 30] {
        data.extend(vehicle_record(t));
    }
    assert_eq!(data.len(), 2 + 3 * 48);
    let mut c = Cursor::new(&data);
    let v = CardVehiclesUsedGen2::parse_dyn_size(&mut c, data.len()).unwrap();
    assert_eq!(v.vehicle_pointer_newest_record, 2);
    assert_eq!(v.card_vehicle_records.len(), 2);
    assert_eq!(c.position(), data.len());
    data[1] = 0;
    let mut c = Cursor::new(&data);
    let v = CardVehiclesUsedGen2::parse_dyn_size(&mut c, data.len()).unwrap();
    assert_eq!(v.card_vehicle_records.len(), 3);
}

#[test]
fn load_type_entries_stop_at_the_first_unreadable_record() {
    let mut data = vec![0x00, 0x01];
    data.extend_from_slice(&[0, 0, 0, 5, 1]);
    data.extend_from_slice(&[0, 0, 0, 0, 1]);
    data.extend_from_slice(&[0, 0, 0, 9, 2]);
    let mut c = Cursor::new(&data);
    let e = CardLoadTypeEntries::parse_dyn_size(&mut c, data.len()).unwrap();
    assert_eq!(e.card_load_type_entry_records.len(), 1);
    assert_eq!(e.card_load_type_entry_records[0].load_type_entered, LoadType::Goods);
}
