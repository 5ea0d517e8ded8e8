use tachograph_parser::card_parser::{CardData, CardParser};
use tachograph_parser::cursor::{Cursor, ParseError};
use tachograph_parser::detector::{detect_from_bytes, find_header, TachoFileType};
use tachograph_parser::vu_files::VuData as FullVuData;
use tachograph_parser::vu_parser::{VuData, VuParser};
use tachograph_parser::{
    parse_card_from_bytes, parse_from_bytes, parse_vu_from_bytes, process_driver_card_bytes,
    process_vu_bytes, TachoData,
};

// ---- vehicle unit downloads ----

fn empty_array(record_type: u8) -> Vec<u8> {
    vec![record_type, 0x00, 0x01, 0x00, 0x00]
}

fn gen2_overview() -> Vec<u8> {
    let mut v = vec![0x76, 0x21];
    for t in [0x04, 0x0F, 0x0A, 0x0B, 0x03, 0x13, 0x02, 0x14, 0x10, 0x11, 0x08] {
        v.extend(empty_array(t));
    }
    v
}

fn gen2_speed_block() -> Vec<u8> {
    let mut v = vec![0x76, 0x24];
    v.extend(empty_array(0x12));
    v.extend(empty_array(0x08));
    v
}

#[test]
fn vu_gen2_download_with_overview_and_speed() {
    let mut data = gen2_overview();
    data.extend(gen2_speed_block());
    data.extend(gen2_speed_block());
    let v = parse_vu_from_bytes(&data).unwrap();
    match v {
        VuData::Gen2(b) => {
            assert_eq!(b.vu_detailed_speed.len(), 2);
            assert_eq!(b.vu_activities.len(), 0);
            assert_eq!(b.vu_overview.signature_record_array.len(), 0);
        }
        _ => panic!("expected generation 2"),
    }
}

#[test]
fn vu_reading_stops_at_an_unknown_block() {
    let mut data = gen2_overview();
    data.extend_from_slice(&[0x76, 0x05, 0xFF, 0xFF]);
    let v = parse_vu_from_bytes(&data).unwrap();
    assert!(matches!(v, VuData::Gen2(_)));
}

#[test]
fn processing_passes_over_unknown_headers_of_generation_2() {
    let mut data = gen2_overview();
    data.extend_from_slice(&[0x76, 0x05]);
    data.extend(gen2_speed_block());
    data.extend_from_slice(&[0xFF, 0xFF]);
    data.extend(gen2_speed_block());
    match process_vu_bytes(&data).unwrap() {
        FullVuData::VuGen2Blocks(b) => assert_eq!(b.vu_detailed_speed.len(), 2),
        _ => panic!("expected generation 2"),
    }
    match parse_vu_from_bytes(&data).unwrap() {
        VuData::Gen2(b) => assert_eq!(b.vu_detailed_speed.len(), 0),
        _ => panic!("expected generation 2"),
    }
    let mut odd = gen2_overview();
    odd.push(0x33);
    assert_eq!(process_vu_bytes(&odd).unwrap_err(), ParseError::UnexpectedEnd);
}

#[test]
fn processing_needs_the_overview_first() {
    let mut data = gen2_speed_block();
    data.extend(gen2_overview());
    assert_eq!(process_vu_bytes(&data).unwrap_err(), ParseError::UnsupportedFileType);
    assert!(matches!(parse_vu_from_bytes(&data).unwrap(), VuData::Gen2(_)));
}

#[test]
fn processing_version_2_keeps_the_overview_only() {
    let mut data = vec![0x76, 0x31];
    for t in [0x04, 0x0F, 0x0A, 0x0B, 0x03, 0x13, 0x02, 0x14, 0x10, 0x11, 0x08] {
        data.extend(empty_array(t));
    }
    data.extend_from_slice(&[0x76, 0x33]);
    match process_vu_bytes(&data).unwrap() {
        FullVuData::VuGen2V2Blocks(b) => assert_eq!(b.vu_overview.signature_record_array.len(), 0),
        _ => panic!("expected version 2"),
    }
}

#[test]
fn vu_without_overview_is_refused() {
    let mut data = gen2_speed_block();
    data[1] = 0x24;
    assert_eq!(parse_vu_from_bytes(&data).unwrap_err(), ParseError::MissingBlock);
}

#[test]
fn vu_ending_inside_a_header_is_refused() {
    let mut data = gen2_overview();
    data.push(0x76);
    assert_eq!(parse_vu_from_bytes(&data).unwrap_err(), ParseError::UnexpectedEnd);
}

#[test]
fn vu_with_a_broken_block_is_refused() {
    let mut data = gen2_overview();
    data.extend_from_slice(&[0x76, 0x24, 0x00]);
    assert_eq!(parse_vu_from_bytes(&data).unwrap_err(), ParseError::InvalidValue);
}

#[test]
fn vu_of_unknown_generation_is_refused() {
    let p = VuParser::new_from_bytes(&[0x76, 0x40, 0x00]).unwrap();
    assert_eq!(p.parse().unwrap_err(), ParseError::UnsupportedFileType);
}

#[test]
fn vu_version_2_overview() {
    let mut data = vec![0x76, 0x31];
    for t in [0x04, 0x0F, 0x0A, 0x0B, 0x03, 0x13, 0x02, 0x14, 0x10, 0x11, 0x08] {
        data.extend(empty_array(t));
    }
    match parse_vu_from_bytes(&data).unwrap() {
        VuData::Gen2V2(b) => assert_eq!(b.vu_company_locks.len(), 0),
        _ => panic!("expected version 2"),
    }
}

// ---- driver cards ----

fn entry(file_id: u16, file_type: u8, content: &[u8]) -> Vec<u8> {
    let mut v = file_id.to_be_bytes().to_vec();
    v.push(file_type);
    v.extend_from_slice(&(content.len() as u16).to_be_bytes());
    v.extend_from_slice(content);
    v
}

fn name(text: &str) -> Vec<u8> {
    let mut v = vec![0x01];
    v.extend_from_slice(text.as_bytes());
    v.resize(36, b' ');
    v
}

fn driver_number() -> Vec<u8> {
    let mut v = b"D1234567890123".to_vec();
    v.extend_from_slice(b"01");
    v
}

fn icc_identification() -> Vec<u8> {
    let mut v = vec![0x00, 0, 0, 0, 1, 0x01, 0x24, 0x01, 0x10];
    v.extend_from_slice(b"APPROVAL");
    v.push(0x10);
    v.extend_from_slice(b"DE");
    v.extend_from_slice(&[0x00, 0x01, 0x02, 0x00, 0x00]);
    v
}

fn identification() -> Vec<u8> {
    let mut v = vec![0x0D];
    v.extend(driver_number());
    v.extend(name("KBA"));
    for t in [1_600_000_000u32, 1_600_000_000, 1_900_000_000] {
        v.extend_from_slice(&t.to_be_bytes());
    }
    v.extend(name("Doe"));
    v.extend(name("Jane"));
    v.extend_from_slice(&[0x19, 0x85, 0x12, 0x31]);
    v.extend_from_slice(b"en");
    v
}

fn control_activity() -> Vec<u8> {
    let mut v = vec![0x80];
    v.extend_from_slice(&1_700_000_000u32.to_be_bytes());
    v.extend_from_slice(&[0x03, 0x0D]);
    v.extend_from_slice(b"CONTROL000001");
    v.extend_from_slice(b"101");
    v.push(0x0D);
    v.push(0x01);
    v.extend_from_slice(b"AB123        ");
    v.extend_from_slice(&1_690_000_000u32.to_be_bytes());
    v.extend_from_slice(&1_700_000_000u32.to_be_bytes());
    v
}

fn driver_activity() -> Vec<u8> {
    vec![0u8; 4 + 13776]
}

fn gen1_card(signature_byte: u8) -> Vec<u8> {
    let sig = vec![signature_byte; 128];
    let cert = vec![0xCEu8; 194];
    let mut v = Vec::new();
    v.extend(entry(0x0002, 0, &icc_identification()));
    v.extend(entry(0x0005, 0, &[1, 2, 3, 4, 5, 6, 7, 8]));
    v.extend(entry(0x0501, 0, &[0x01, 0x00, 0x00, 6, 12, 0x35, 0xD0, 0x00, 0x84, 0x70]));
    v.extend(entry(0x0501, 1, &sig));
    v.extend(entry(0xC100, 0, &cert));
    v.extend(entry(0xC108, 0, &cert));
    v.extend(entry(0x0520, 0, &identification()));
    v.extend(entry(0x0520, 1, &sig));
    v.extend(entry(0x0502, 0, &[]));
    v.extend(entry(0x0502, 1, &sig));
    v.extend(entry(0x0503, 0, &[]));
    v.extend(entry(0x0503, 1, &sig));
    v.extend(entry(0x0504, 0, &driver_activity()));
    v.extend(entry(0x0504, 1, &sig));
    v.extend(entry(0x0505, 0, &[0x00, 0x00]));
    v.extend(entry(0x0505, 1, &sig));
    v.extend(entry(0x0506, 0, &[0x00]));
    v.extend(entry(0x0506, 1, &sig));
    v.extend(entry(0x0508, 0, &control_activity()));
    v.extend(entry(0x0508, 1, &sig));
    v.extend(entry(0x0522, 0, &[]));
    v.extend(entry(0x0522, 1, &sig));
    v
}

fn gen2_files() -> Vec<u8> {
    let sig = vec![0x5Au8; 64];
    let cert = vec![0xCEu8; 100];
    let mut icc = icc_identification();
    icc[7] = 0x01;
    let mut control = control_activity();
    control[0] = 0x88;
    let mut v = Vec::new();
    v.extend(entry(0x0002, 2, &icc));
    v.extend(entry(0x0005, 2, &[8, 7, 6, 5, 4, 3, 2, 1]));
    v.extend(entry(
        0x0501,
        2,
        &[0x01, 0x01, 0x00, 6, 12, 0x35, 0xD0, 0x00, 0x84, 0x00, 0x70, 0x00, 0x10, 0x00, 0x20, 0x00, 0x30],
    ));
    v.extend(entry(0x0501, 3, &sig));
    v.extend(entry(0xC101, 2, &cert));
    v.extend(entry(0xC108, 2, &cert));
    v.extend(entry(0xC109, 2, &cert));
    v.extend(entry(0x0520, 2, &identification()));
    v.extend(entry(0x0520, 3, &sig));
    v.extend(entry(0x0502, 2, &[]));
    v.extend(entry(0x0502, 3, &sig));
    v.extend(entry(0x0503, 2, &[]));
    v.extend(entry(0x0503, 3, &sig));
    v.extend(entry(0x0504, 2, &driver_activity()));
    v.extend(entry(0x0504, 3, &sig));
    v.extend(entry(0x0505, 2, &[0x00, 0x00]));
    v.extend(entry(0x0505, 3, &sig));
    v.extend(entry(0x0506, 2, &[0x00, 0x00]));
    v.extend(entry(0x0506, 3, &sig));
    v.extend(entry(0x0508, 2, &control));
    v.extend(entry(0x0508, 3, &sig));
    v.extend(entry(0x0522, 2, &[0x00, 0x00]));
    v.extend(entry(0x0522, 3, &sig));
    v.extend(entry(0x0523, 2, &[0x00, 0x00]));
    v.extend(entry(0x0523, 3, &sig));
    v.extend(entry(0x0524, 2, &[0x00, 0x00]));
    v.extend(entry(0x0524, 3, &sig));
    v
}

#[test]
fn gen1_card_is_read() {
    let data = gen1_card(0x11);
    match parse_card_from_bytes(&data).unwrap() {
        CardData::Gen1 { gen1_blocks } => {
            assert_eq!(gen1_blocks.card_chip_identification.card_chip_identification_number, vec![1, 2, 3, 4]);
            assert_eq!(gen1_blocks.identification_signature.0, vec![0x11; 128]);
            assert!(gen1_blocks.card_download.is_none());
            assert!(gen1_blocks.current_usage.is_none());
            let holder = &gen1_blocks.identification.driver_card_holder_identification;
            assert_eq!(holder.card_holder_number.holder_surname.name.0, "Doe");
        }
        _ => panic!("expected generation 1"),
    }
}

#[test]
fn gen2_card_is_read_with_both_generations() {
    let mut data = gen1_card(0x11);
    data.extend(gen2_files());
    match parse_card_from_bytes(&data).unwrap() {
        CardData::Gen2 { gen1_blocks, gen2_blocks } => {
            assert_eq!(gen1_blocks.card_certificate.0.len(), 194);
            assert_eq!(gen2_blocks.link_certificate.value.len(), 100);
            assert_eq!(gen2_blocks.gnss_places_signature.value, vec![0x5A; 64]);
            assert!(gen2_blocks.control_activity_data.control_type.roadside_calibration_checking);
        }
        _ => panic!("expected generation 2"),
    }
}

#[test]
fn card_with_incomplete_gen2_files_is_refused() {
    let mut data = gen1_card(0x11);
    let mut icc = icc_identification();
    icc[7] = 0x01;
    data.extend(entry(0x0002, 2, &icc));
    assert_eq!(parse_card_from_bytes(&data).unwrap_err(), ParseError::MissingBlock);
}

#[test]
fn card_missing_a_gen1_file_is_refused() {
    let data = gen1_card(0x11);
    let cut = data.len() - (5 + 128) - 5;
    assert_eq!(parse_card_from_bytes(&data[..cut]).unwrap_err(), ParseError::MissingBlock);
}

#[test]
fn card_repeating_a_unique_file_is_refused() {
    let mut data = gen1_card(0x11);
    data.extend(entry(0x0520, 0, &identification()));
    assert_eq!(parse_card_from_bytes(&data).unwrap_err(), ParseError::DuplicateBlock);
}

#[test]
fn card_repeated_signature_keeps_the_last() {
    let mut data = gen1_card(0x11);
    data.extend(entry(0x0520, 1, &vec![0x22; 128]));
    match parse_card_from_bytes(&data).unwrap() {
        CardData::Gen1 { gen1_blocks } => {
            assert_eq!(gen1_blocks.identification_signature.0, vec![0x22; 128]);
        }
        _ => panic!("expected generation 1"),
    }
}

#[test]
fn card_reading_stops_at_an_unknown_file() {
    let mut data = gen1_card(0x11);
    data.extend(entry(0x0999, 0, &[1, 2, 3]));
    data.extend(entry(0x0520, 0, &[0xFF]));
    assert!(matches!(parse_card_from_bytes(&data).unwrap(), CardData::Gen1 { .. }));
}

#[test]
fn card_ending_inside_a_header_is_refused() {
    let mut data = gen1_card(0x11);
    data.extend_from_slice(&[0x05, 0x20]);
    assert_eq!(parse_card_from_bytes(&data).unwrap_err(), ParseError::UnexpectedEnd);
}

#[test]
fn card_with_a_short_file_is_refused() {
    let mut data = entry(0x0002, 0, &icc_identification());
    data.extend(entry(0x0005, 0, &[1, 2, 3]));
    assert_eq!(parse_card_from_bytes(&data).unwrap_err(), ParseError::UnexpectedEnd);
    let parser = CardParser::new_from_bytes(&data).unwrap();
    assert!(parser.parse().is_err());
}

// ---- detection ----

#[test]
fn detects_vehicle_units_by_their_first_block() {
    assert_eq!(detect_from_bytes(&[0x76, 0x01]), Ok(TachoFileType::VehicleUnitGen1));
    assert_eq!(detect_from_bytes(&[0x76, 0x25]), Ok(TachoFileType::VehicleUnitGen2));
    assert_eq!(detect_from_bytes(&[0x76, 0x33]), Ok(TachoFileType::VehicleUnitGen2V2));
    assert_eq!(detect_from_bytes(&[0x76, 0x06]), Err(ParseError::UnsupportedFileType));
    assert_eq!(detect_from_bytes(&[0x76]), Err(ParseError::UnexpectedEnd));
}

#[test]
fn detects_driver_cards_by_their_application_identification() {
    assert_eq!(detect_from_bytes(&[0x00, 0x02, 0x05, 0x01, 0x00]), Ok(TachoFileType::DriverCardGen1));
    assert_eq!(
        detect_from_bytes(&[0x00, 0x02, 0x05, 0x01, 0x00, 0x05, 0x01, 0x02]),
        Ok(TachoFileType::DriverCardGen2)
    );
    assert_eq!(
        detect_from_bytes(&[0x00, 0x02, 0x05, 0x01, 0x02, 0x05, 0x25, 0x02]),
        Ok(TachoFileType::DriverCardGen2V2)
    );
    assert_eq!(detect_from_bytes(&[0x00, 0x02, 0x05, 0x01]), Err(ParseError::UnsupportedFileType));
    assert_eq!(detect_from_bytes(&[0x01, 0x02]), Err(ParseError::UnsupportedFileType));
}

#[test]
fn the_header_of_the_first_two_bytes_is_not_searched() {
    assert_eq!(detect_from_bytes(&[0x00, 0x02, 0x01, 0x00]), Err(ParseError::UnsupportedFileType));
}

#[test]
fn find_header_gives_the_first_position() {
    let data = [9, 5, 1, 0, 5, 1, 0];
    let mut c = Cursor::new(&data);
    assert_eq!(find_header(&mut c, &[5, 1, 0]), Some(1));
    assert_eq!(c.position(), 4);
    assert_eq!(find_header(&mut c, &[5, 1, 0]), Some(4));
    assert_eq!(find_header(&mut c, &[5, 1, 0]), None);
}

#[test]
fn type_names() {
    assert_eq!(TachoFileType::DriverCardGen2V2.to_string(), "Driver Card Gen2V2");
    assert_eq!(TachoFileType::VehicleUnitGen1.to_string(), "Vehicle Unit Gen1");
}

#[test]
fn detection_and_vu_parser_agree_on_the_generation() {
    let data = gen2_overview();
    assert_eq!(detect_from_bytes(&data), Ok(TachoFileType::VehicleUnitGen2));
    assert!(matches!(parse_vu_from_bytes(&data).unwrap(), VuData::Gen2(_)));
}

#[test]
fn parse_from_bytes_dispatches_on_the_kind() {
    let card = gen1_card(0x11);
    assert!(matches!(parse_from_bytes(&card).unwrap(), TachoData::Card { .. }));
    let vu = gen2_overview();
    assert!(matches!(parse_from_bytes(&vu).unwrap(), TachoData::Vu { .. }));
}

#[test]
fn detection_and_card_parser_agree_on_the_generation() {
    let gen1 = gen1_card(0x11);
    assert_eq!(detect_from_bytes(&gen1), Ok(TachoFileType::DriverCardGen1));
    assert!(matches!(parse_card_from_bytes(&gen1).unwrap(), CardData::Gen1 { .. }));
    let mut gen2 = gen1_card(0x11);
    gen2.extend(gen2_files());
    assert_eq!(detect_from_bytes(&gen2), Ok(TachoFileType::DriverCardGen2));
    assert!(matches!(parse_card_from_bytes(&gen2).unwrap(), CardData::Gen2 { .. }));
}

#[test]
fn reading_any_kind_gives_what_the_reader_of_the_kind_gives() {
    let mut card = gen1_card(0x11);
    card.extend(gen2_files());
    match (parse_from_bytes(&card).unwrap(), parse_card_from_bytes(&card).unwrap()) {
        (TachoData::Card { card_data }, direct) => {
            assert_eq!(format!("{:?}", card_data), format!("{:?}", direct))
        }
        _ => panic!("expected card data"),
    }
    let broken = {
        let mut c = gen1_card(0x11);
        c.truncate(c.len() - 1);
        c
    };
    assert_eq!(parse_from_bytes(&broken).unwrap_err(), parse_card_from_bytes(&broken).unwrap_err());
    let vu = gen2_overview();
    match (parse_from_bytes(&vu).unwrap(), parse_vu_from_bytes(&vu).unwrap()) {
        (TachoData::Vu { vu_data }, direct) => {
            assert_eq!(format!("{:?}", vu_data), format!("{:?}", direct))
        }
        _ => panic!("expected vehicle unit data"),
    }
}

fn licence() -> Vec<u8> {
    let mut v = name("KBA");
    v.push(0x0D);
    v.extend_from_slice(b"LICENCE-0000001 ");
    v
}

fn current_use() -> Vec<u8> {
    let mut v = 1_600_000_000u32.to_be_bytes().to_vec();
    v.push(0x0D);
    v.push(0x01);
    v.extend_from_slice(b"B-AB 123     ");
    v
}

fn full_card() -> Vec<u8> {
    let sig1 = vec![0x11u8; 128];
    let sig2 = vec![0x5Au8; 64];
    let mut v = gen1_card(0x11);
    v.extend(entry(0x050E, 0, &1_600_000_000u32.to_be_bytes()));
    v.extend(entry(0x050E, 1, &sig1));
    v.extend(entry(0x0521, 0, &licence()));
    v.extend(entry(0x0521, 1, &sig1));
    v.extend(entry(0x0507, 0, &current_use()));
    v.extend(entry(0x0507, 1, &sig1));
    v.extend(gen2_files());
    v.extend(entry(0x050E, 2, &1_600_000_000u32.to_be_bytes()));
    v.extend(entry(0x050E, 3, &sig2));
    v.extend(entry(0x0521, 2, &licence()));
    v.extend(entry(0x0521, 3, &sig2));
    v.extend(entry(0x0507, 2, &current_use()));
    v.extend(entry(0x0507, 3, &sig2));
    v
}

#[test]
fn process_driver_card_needs_every_file_of_both_generations() {
    let gen1_only = gen1_card(0x11);
    assert_eq!(process_driver_card_bytes(&gen1_only).unwrap_err(), ParseError::MissingBlock);
    let mut both = gen1_card(0x11);
    both.extend(gen2_files());
    assert_eq!(process_driver_card_bytes(&both).unwrap_err(), ParseError::MissingBlock);
    let full = full_card();
    let data = process_driver_card_bytes(&full).unwrap();
    assert_eq!(data.gen1.identification_signature.size, 128);
    assert_eq!(data.gen2.gnss_places_signature.data.value, vec![0x5A; 64]);
    assert_eq!(data.gen2.driver_licence_information.size as usize, licence().len());
    assert_eq!(
        data.gen1.driver_licence_info.data.driving_licence_issuing_authority.name.0,
        "KBA"
    );
}

#[test]
fn process_driver_card_keeps_the_last_copy_of_a_file() {
    let mut full = full_card();
    full.extend(entry(0x0520, 1, &vec![0x22u8; 128]));
    full.extend(entry(0x0002, 0, &icc_identification()));
    assert_eq!(parse_card_from_bytes(&full).unwrap_err(), ParseError::DuplicateBlock);
    let data = process_driver_card_bytes(&full).unwrap();
    assert_eq!(data.gen1.identification_signature.data.0, vec![0x22; 128]);
}
