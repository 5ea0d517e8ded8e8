use tachograph_parser::text::decode_code_page;
use tachograph_parser::bytes::{extract_u16_bits_into_tup, extract_u8_bits_into_tup};
use tachograph_parser::cursor::{Cursor, Parse, ParseDyn, ParseError};
use tachograph_parser::dt::external::{ManufacturerCode, NationNumeric};
use tachograph_parser::dt::{
    bcd_number, hex_string, ActivityChangeInfo, ActivityChangeInfoCardActivity,
    ActivityChangeInfoSlot, BCDString, CardNumber, Datef, IA5String, MonthYear, Name,
    OdometerShort, TimeReal,
};

#[test]
fn u8_bits_most_significant_first() {
    assert_eq!(extract_u8_bits_into_tup(0b1010_0011), (1, 0, 1, 0, 0, 0, 1, 1));
    assert_eq!(extract_u8_bits_into_tup(0), (0, 0, 0, 0, 0, 0, 0, 0));
}

#[test]
fn u8_bits_reassemble_to_the_byte() {
    for b in 0..=255u8 {
        let t = extract_u8_bits_into_tup(b);
        let back = t.0 * 128 + t.1 * 64 + t.2 * 32 + t.3 * 16 + t.4 * 8 + t.5 * 4 + t.6 * 2 + t.7;
        assert_eq!(back, b);
    }
}

#[test]
fn u16_bits_most_significant_first() {
    let t = extract_u16_bits_into_tup(0x8001);
    assert_eq!(t.0, 1);
    assert_eq!(t.1, 0);
    assert_eq!(t.14, 0);
    assert_eq!(t.15, 1);
}

#[test]
fn cursor_reads_big_endian_and_stops_at_the_end() {
    let data = [0x12, 0x34, 0x56, 0x78, 0x9A];
    let mut c = Cursor::new(&data);
    assert_eq!(c.read_u16_be(), Ok(0x1234));
    assert_eq!(c.read_u24_be(), Ok(0x56789A));
    assert_eq!(c.read_u8(), Err(ParseError::UnexpectedEnd));
    assert_eq!(c.position(), 5);
}

#[test]
fn cursor_failed_read_moves_to_the_end() {
    let data = [1, 2, 3];
    let mut c = Cursor::new(&data);
    assert_eq!(c.read_u32_be(), Err(ParseError::UnexpectedEnd));
    assert_eq!(c.position(), 3);
    assert!(!c.has_remaining());
}

#[test]
fn time_real_reads_seconds() {
    let data = [0x5F, 0x5E, 0x10, 0x00];
    let mut c = Cursor::new(&data);
    let t = TimeReal::parse(&mut c).unwrap();
    assert_eq!(t.timestamp(), 0x5F5E1000);
}

#[test]
fn time_real_refuses_zero_and_negative() {
    let mut c = Cursor::new(&[0, 0, 0, 0]);
    assert_eq!(TimeReal::parse(&mut c).unwrap_err(), ParseError::InvalidValue);
    let mut c = Cursor::new(&[0x80, 0, 0, 0]);
    assert_eq!(TimeReal::parse(&mut c).unwrap_err(), ParseError::InvalidValue);
}

#[test]
fn bcd_numbers() {
    assert_eq!(bcd_number(&[0x20, 0x24]), Some(2024));
    assert_eq!(bcd_number(&[0x1A]), None);
    assert_eq!(bcd_number(&[]), Some(0));
}

#[test]
fn hex_text_of_bytes() {
    assert_eq!(hex_string(&[0x0A, 0xFF, 0x00]), "0AFF00");
    let mut c = Cursor::new(&[0x12, 0xAB]);
    let s = BCDString::parse_dyn_size(&mut c, 2).unwrap();
    assert_eq!(s.0, "12AB");
}

#[test]
fn month_year_and_date() {
    let mut c = Cursor::new(&[0x07, 0x24]);
    let my = MonthYear::parse(&mut c).unwrap();
    assert_eq!((my.month, my.year), (7, 24));
    let mut c = Cursor::new(&[0x19, 0x85, 0x12, 0x31]);
    let d = Datef::parse(&mut c).unwrap();
    assert_eq!((d.year, d.month, d.day), (1985, 12, 31));
    let mut c = Cursor::new(&[0x1F, 0x24]);
    assert_eq!(MonthYear::parse(&mut c).unwrap_err(), ParseError::InvalidValue);
}

#[test]
fn ia5_string_is_trimmed() {
    let mut c = Cursor::new(b"  AB12   ");
    let s = IA5String::parse_dyn_size(&mut c, 9).unwrap();
    assert_eq!(s.0, "AB12");
}

#[test]
fn name_in_latin_1() {
    let mut data = vec![0x01];
    data.extend_from_slice(b"M\xFCller");
    data.resize(36, b' ');
    let mut c = Cursor::new(&data);
    let n = Name::parse(&mut c).unwrap();
    assert_eq!(n.code_page, 1);
    assert_eq!(n.name.0, "M\u{fc}ller");
}

#[test]
fn name_in_latin_2() {
    let mut data = vec![0x02];
    data.extend_from_slice(b"\xA3\xF3d\xBC");
    data.resize(36, b' ');
    let mut c = Cursor::new(&data);
    let n = Name::parse(&mut c).unwrap();
    assert_eq!(n.name.0, "\u{141}\u{f3}d\u{17a}");
}

#[test]
fn name_in_koi8_r() {
    let mut data = vec![85];
    data.extend_from_slice(&[0xF0, 0xC5, 0xD4, 0xD2]);
    data.resize(36, b' ');
    let mut c = Cursor::new(&data);
    let n = Name::parse(&mut c).unwrap();
    assert_eq!(n.name.0, "\u{41f}\u{435}\u{442}\u{440}");
}

#[test]
fn name_drops_leading_control_one() {
    let mut data = vec![0x01, 0x01, 0x01];
    data.extend_from_slice(b"ACME");
    data.resize(36, b' ');
    let mut c = Cursor::new(&data);
    let n = Name::parse(&mut c).unwrap();
    assert_eq!(n.name.0, "ACME");
}

#[test]
fn name_with_unknown_code_page_is_read_as_utf8() {
    let mut data = vec![0xFF];
    data.extend_from_slice("Ω".as_bytes());
    data.resize(36, b' ');
    let mut c = Cursor::new(&data);
    let n = Name::parse(&mut c).unwrap();
    assert_eq!(n.name.0, "Ω");
}

#[test]
fn manufacturer_and_nation() {
    let mut c = Cursor::new(&[0x10]);
    assert_eq!(ManufacturerCode::parse(&mut c).unwrap().0, "Actia S.A.");
    let mut c = Cursor::new(&[0x00]);
    assert_eq!(ManufacturerCode::parse(&mut c).unwrap_err(), ParseError::InvalidValue);
    let mut c = Cursor::new(&[0x0D]);
    assert_eq!(NationNumeric::parse(&mut c).unwrap().0, "Germany");
}

#[test]
fn driver_card_number() {
    let mut data = b"D1234567890123".to_vec();
    data.extend_from_slice(b"01");
    let mut c = Cursor::new(&data);
    match CardNumber::parse_driver(&mut c).unwrap() {
        CardNumber::Driver { driver_identification, card_replacement_index, card_renewal_index } => {
            assert_eq!(driver_identification.0, "D1234567890123");
            assert_eq!(card_replacement_index.0 .0, "0");
            assert_eq!(card_renewal_index.0 .0, "1");
        }
        _ => panic!("expected a driver card number"),
    }
}

#[test]
fn odometer_is_three_bytes() {
    let mut c = Cursor::new(&[0x01, 0x02, 0x03]);
    assert_eq!(OdometerShort::parse(&mut c).unwrap().0, 0x010203);
}

#[test]
fn activity_change_driving_codriver() {
    // slot 1 (co-driver), single, inserted, driving (3), time 0x123 minutes
    let w: u16 = (1 << 15) | (0 << 14) | (0 << 13) | (3 << 11) | 0x123;
    let b = w.to_be_bytes();
    let mut c = Cursor::new(&b);
    let a = ActivityChangeInfo::parse(&mut c).unwrap();
    assert_eq!(a.slot, ActivityChangeInfoSlot::CoDriver);
    assert_eq!(a.activity, ActivityChangeInfoCardActivity::Driving);
    assert_eq!(a.minutes, 0x123);
}

#[test]
fn latin1_reads_bytes_as_their_characters_and_leaves_out_c1() {
    assert_eq!(decode_code_page(&[0x41, 0x85, 0xE9, 0xFF], 1), "A\u{e9}\u{ff}");
    assert_eq!(decode_code_page(&[0x41, 0x9F, 0x42], 2), "AB");
}
