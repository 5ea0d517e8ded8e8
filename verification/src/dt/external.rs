//! Code tables that the regulation keeps outside the data dictionary proper:
//! the card and equipment manufacturers, and the nations.
use crate::cursor::{bytes_end, bytes_ok, Cursor, Parse, ParseError};
use vstd::prelude::*;

verus! {

/// ManufacturerCode (appendix 2.94): the name of a manufacturer of cards or equipment.
#[derive(Debug)]
pub struct ManufacturerCode(pub String);

/// The name that the byte `code` stands for, if any.
pub open spec fn manufacturer_name(code: u8) -> Option<Seq<char>> {
    match code {
        0x10 => Some("Actia S.A."@),
        0x11 => Some("Security Printing and Systems Ltd."@),
        0x12 => Some("Austria Card Plastikkarten und Ausweissysteme GmbH"@),
        0x13 => Some("Agencija za komercijalnu djelatnost d.o.o (AKD)"@),
        0x14 => Some("ALIK Automotive GmbH"@),
        0x15 => Some("ASELSAN"@),
        0x16 => Some("Asia Tacho Kart LLC"@),
        0x17 => Some("Real Casa de la Moneda"@),
        0x18 => Some("BARBÉ S.R.L."@),
        0x19 => Some("BogArt Sp. z o.o."@),
        0x20 => Some("CETIS d.d."@),
        0x21 => Some("certSIGN"@),
        0x22 => Some("RUE Cryptotech"@),
        0x23 => Some("Centr Modernizatcii Transporta OOO (CMT - LLC)"@),
        0x24 => Some("Pars Ar-Ge Ltd"@),
        0x25 => Some("Cardplus Sverige AB"@),
        0x28 => Some("Datakom"@),
        0x29 => Some("DVLA"@),
        0x30 => Some("IDEMIA The Netherlands BV"@),
        0x32 => Some("EFKON AG"@),
        0x35 => Some("Eurocard LLC"@),
        0x38 => Some("Fábrica Nacional de Moneda y Timbre"@),
        0x39 => Some("First Print Yard"@),
        0x40 => Some("Giesecke & Devrient GmbH"@),
        0x43 => Some("Giesecke & Devrient GB Ltd."@),
        0x44 => Some("Giesecke & Devrient sa/nv"@),
        0x45 => Some("GrafoCARD"@),
        0x48 => Some("Hungarian Banknote Printing Co. Ltd."@),
        0x49 => Some("Haug GmbH"@),
        0x4A => Some("Hegard Sp. z o.o."@),
        0x50 => Some("Imprimerie Nationale"@),
        0x51 => Some("Imprensa Nacional-Casa da Moeda, SA"@),
        0x52 => Some("InfoCamere S.C.p.A"@),
        0x53 => Some("Intellic Germany GmbH - ZF Group CVS"@),
        0x55 => Some("INTELLIGENT TELEMATICS SYSTEMS FOR TRANSPORT (its-t.llc)"@),
        0x60 => Some("Kraftfahrt-Bundesamt (KBA)"@),
        0x61 => Some("KazTACHOnet LLP"@),
        0x68 => Some("LESIKAR a.s."@),
        0x69 => Some("LEDA-SL"@),
        0x78 => Some("NAP automotive Produkte GmbH"@),
        0x79 => Some("NATIONAL BANK OF SERBIA"@),
        0x81 => Some("Morpho e-documents"@),
        0x82 => Some("ORGA Zelenograd ZAO"@),
        0x84 => Some("ORGA Kartensysteme GmbH"@),
        0x88 => Some("Asseco - Central Europe a.s."@),
        0x89 => Some("Polska Wytwórnia Papierów Wartosciowych S.A. - PWPW S.A."@),
        0x8A => Some("Papiery Powlekane Pasaco Sp. z o.o."@),
        0x98 => Some("TahoNetSoft"@),
        0xA1 => Some("Continental Automotive Technologies"@),
        0xA2 => Some("Stoneridge Electronics AB"@),
        0xA3 => Some("Thales"@),
        0xA4 => Some("3M Security Printing and Systems Ltd."@),
        0xA5 => Some("STMicroelectronics - Incard Division"@),
        0xA6 => Some("STÁTNÍ TISKÁRNA CENIN, státní podnik"@),
        0xAB => Some("T-Systems International GmbH"@),
        0xAC => Some("Thales DIS Schweiz AG"@),
        0xAD => Some("Trüb Baltic AS"@),
        0xAE => Some("TEMPEST a.s."@),
        0xAF => Some("Trueb - DEMAX PLC"@),
        0xB0 => Some("TAYROL LIMITED"@),
        0xB1 => Some("UŽDAROJI AKCINĖ BENDROVĖ \"LODVILA\""@),
        0xD8 => Some("Union of Chambers and Commodity Exchanges of Turkey - TOBB"@),
        0xE0 => Some("Turker Roll Paper Trade"@),
        _ => None,
    }
}

/// Looks up the name that the byte `code` stands for.
pub fn manufacturer_name_of(code: u8) -> (r: Option<&'static str>)
    ensures
        r is None <==> manufacturer_name(code) is None,
        r matches Some(s) ==> manufacturer_name(code) == Some(s@),
{
    match code {
        0x10 => Some("Actia S.A."),
        0x11 => Some("Security Printing and Systems Ltd."),
        0x12 => Some("Austria Card Plastikkarten und Ausweissysteme GmbH"),
        0x13 => Some("Agencija za komercijalnu djelatnost d.o.o (AKD)"),
        0x14 => Some("ALIK Automotive GmbH"),
        0x15 => Some("ASELSAN"),
        0x16 => Some("Asia Tacho Kart LLC"),
        0x17 => Some("Real Casa de la Moneda"),
        0x18 => Some("BARBÉ S.R.L."),
        0x19 => Some("BogArt Sp. z o.o."),
        0x20 => Some("CETIS d.d."),
        0x21 => Some("certSIGN"),
        0x22 => Some("RUE Cryptotech"),
        0x23 => Some("Centr Modernizatcii Transporta OOO (CMT - LLC)"),
        0x24 => Some("Pars Ar-Ge Ltd"),
        0x25 => Some("Cardplus Sverige AB"),
        0x28 => Some("Datakom"),
        0x29 => Some("DVLA"),
        0x30 => Some("IDEMIA The Netherlands BV"),
        0x32 => Some("EFKON AG"),
        0x35 => Some("Eurocard LLC"),
        0x38 => Some("Fábrica Nacional de Moneda y Timbre"),
        0x39 => Some("First Print Yard"),
        0x40 => Some("Giesecke & Devrient GmbH"),
        0x43 => Some("Giesecke & Devrient GB Ltd."),
        0x44 => Some("Giesecke & Devrient sa/nv"),
        0x45 => Some("GrafoCARD"),
        0x48 => Some("Hungarian Banknote Printing Co. Ltd."),
        0x49 => Some("Haug GmbH"),
        0x4A => Some("Hegard Sp. z o.o."),
        0x50 => Some("Imprimerie Nationale"),
        0x51 => Some("Imprensa Nacional-Casa da Moeda, SA"),
        0x52 => Some("InfoCamere S.C.p.A"),
        0x53 => Some("Intellic Germany GmbH - ZF Group CVS"),
        0x55 => Some("INTELLIGENT TELEMATICS SYSTEMS FOR TRANSPORT (its-t.llc)"),
        0x60 => Some("Kraftfahrt-Bundesamt (KBA)"),
        0x61 => Some("KazTACHOnet LLP"),
        0x68 => Some("LESIKAR a.s."),
        0x69 => Some("LEDA-SL"),
        0x78 => Some("NAP automotive Produkte GmbH"),
        0x79 => Some("NATIONAL BANK OF SERBIA"),
        0x81 => Some("Morpho e-documents"),
        0x82 => Some("ORGA Zelenograd ZAO"),
        0x84 => Some("ORGA Kartensysteme GmbH"),
        0x88 => Some("Asseco - Central Europe a.s."),
        0x89 => Some("Polska Wytwórnia Papierów Wartosciowych S.A. - PWPW S.A."),
        0x8A => Some("Papiery Powlekane Pasaco Sp. z o.o."),
        0x98 => Some("TahoNetSoft"),
        0xA1 => Some("Continental Automotive Technologies"),
        0xA2 => Some("Stoneridge Electronics AB"),
        0xA3 => Some("Thales"),
        0xA4 => Some("3M Security Printing and Systems Ltd."),
        0xA5 => Some("STMicroelectronics - Incard Division"),
        0xA6 => Some("STÁTNÍ TISKÁRNA CENIN, státní podnik"),
        0xAB => Some("T-Systems International GmbH"),
        0xAC => Some("Thales DIS Schweiz AG"),
        0xAD => Some("Trüb Baltic AS"),
        0xAE => Some("TEMPEST a.s."),
        0xAF => Some("Trueb - DEMAX PLC"),
        0xB0 => Some("TAYROL LIMITED"),
        0xB1 => Some("UŽDAROJI AKCINĖ BENDROVĖ \"LODVILA\""),
        0xD8 => Some("Union of Chambers and Commodity Exchanges of Turkey - TOBB"),
        0xE0 => Some("Turker Roll Paper Trade"),
        _ => None,
    }
}

impl ManufacturerCode {
    /// Reads a `ManufacturerCode` at the reader's position.
    pub fn parse(cursor: &mut Cursor) -> (res: Result<ManufacturerCode, ParseError>)
        ensures
            final(cursor).data() == old(cursor).data(),
            old(cursor).pos() <= final(cursor).pos(),
            final(cursor).pos() == ManufacturerCode::parse_end(old(cursor).data(), old(cursor).pos()),
            res is Ok <==> ManufacturerCode::parse_ok(old(cursor).data(), old(cursor).pos()),
            res matches Ok(v) ==> ManufacturerCode::parsed_as(old(cursor).data(), old(cursor).pos(), v),
            res matches Err(e) ==> e == ManufacturerCode::parse_err(old(cursor).data(), old(cursor).pos()),
    {
        let code = cursor.read_u8()?;
        match manufacturer_name_of(code) {
            Some(name) => Ok(ManufacturerCode(name.to_owned())),
            None => Err(ParseError::InvalidValue),
        }
    }
}

impl Parse for ManufacturerCode {
    open spec fn parse_ok(d: Seq<u8>, p: int) -> bool {
        bytes_ok(d, p, 1) && manufacturer_name(d[p]) is Some
    }

    open spec fn parse_end(d: Seq<u8>, p: int) -> int {
        bytes_end(d, p, 1)
    }

    open spec fn parse_err(d: Seq<u8>, p: int) -> ParseError {
        if !bytes_ok(d, p, 1) {
            ParseError::UnexpectedEnd
        } else {
            ParseError::InvalidValue
        }
    }

    open spec fn parsed_as(d: Seq<u8>, p: int, v: ManufacturerCode) -> bool {
        manufacturer_name(d[p]) == Some(v.0@)
    }

    fn parse(cursor: &mut Cursor) -> (res: Result<ManufacturerCode, ParseError>) {
        ManufacturerCode::parse(cursor)
    }
}

/// NationNumeric (appendix 2.101): the name of a country or group of countries.
#[derive(Debug)]
pub struct NationNumeric(pub String);

/// The name that the byte `code` stands for.
pub open spec fn nation_name(code: u8) -> Seq<char> {
    match code {
        0x00 => "No information available"@,
        0x01 => "Austria"@,
        0x02 => "Albania"@,
        0x03 => "Andorra"@,
        0x04 => "Armenia"@,
        0x05 => "Azerbaijan"@,
        0x06 => "Belgium"@,
        0x07 => "Bulgaria"@,
        0x08 => "Bosnia Herzegovina"@,
        0x09 => "Belarus"@,
        0x0A => "Switzerland"@,
        0x0B => "Cyprus"@,
        0x0C => "Czech Republic"@,
        0x0D => "Germany"@,
        0x0E => "Denmark"@,
        0x0F => "Spain"@,
        0x10 => "Estonia"@,
        0x11 => "France"@,
        0x12 => "Finland"@,
        0x13 => "Liechtenstein"@,
        0x14 => "Faroe Islands"@,
        0x15 => "United Kingdom"@,
        0x16 => "Georgia"@,
        0x17 => "Greece"@,
        0x18 => "Hungary"@,
        0x19 => "Croatia"@,
        0x1A => "Italy"@,
        0x1B => "Ireland"@,
        0x1C => "Iceland"@,
        0x1D => "Kazakhstan"@,
        0x1E => "Luxembourg"@,
        0x1F => "Lithuania"@,
        0x20 => "Latvia"@,
        0x21 => "Malta"@,
        0x22 => "Monaco"@,
        0x23 => "Moldova"@,
        0x24 => "North Macedonia"@,
        0x25 => "Norway"@,
        0x26 => "Netherlands"@,
        0x27 => "Portugal"@,
        0x28 => "Poland"@,
        0x29 => "Romania"@,
        0x2A => "San Marino"@,
        0x2B => "Russia"@,
        0x2C => "Sweden"@,
        0x2D => "Slovakia"@,
        0x2E => "Slovenia"@,
        0x2F => "Turkmenistan"@,
        0x30 => "Türkiye"@,
        0x31 => "Ukraine"@,
        0x32 => "Vatican City"@,
        0x34 => "Montenegro"@,
        0x35 => "Serbia"@,
        0x36 => "Uzbekistan"@,
        0x37 => "Tajikistan"@,
        0x38 => "Kyrgyz Republic"@,
        0xFD => "European Community"@,
        0xFE => "Rest of Europe"@,
        0xFF => "Rest of the World"@,
        _ => "Reserved for Future Use"@,
    }
}

/// Looks up the name that the byte `code` stands for.
pub fn nation_name_of(code: u8) -> (r: &'static str)
    ensures
        r@ == nation_name(code),
{
    match code {
        0x00 => "No information available",
        0x01 => "Austria",
        0x02 => "Albania",
        0x03 => "Andorra",
        0x04 => "Armenia",
        0x05 => "Azerbaijan",
        0x06 => "Belgium",
        0x07 => "Bulgaria",
        0x08 => "Bosnia Herzegovina",
        0x09 => "Belarus",
        0x0A => "Switzerland",
        0x0B => "Cyprus",
        0x0C => "Czech Republic",
        0x0D => "Germany",
        0x0E => "Denmark",
        0x0F => "Spain",
        0x10 => "Estonia",
        0x11 => "France",
        0x12 => "Finland",
        0x13 => "Liechtenstein",
        0x14 => "Faroe Islands",
        0x15 => "United Kingdom",
        0x16 => "Georgia",
        0x17 => "Greece",
        0x18 => "Hungary",
        0x19 => "Croatia",
        0x1A => "Italy",
        0x1B => "Ireland",
        0x1C => "Iceland",
        0x1D => "Kazakhstan",
        0x1E => "Luxembourg",
        0x1F => "Lithuania",
        0x20 => "Latvia",
        0x21 => "Malta",
        0x22 => "Monaco",
        0x23 => "Moldova",
        0x24 => "North Macedonia",
        0x25 => "Norway",
        0x26 => "Netherlands",
        0x27 => "Portugal",
        0x28 => "Poland",
        0x29 => "Romania",
        0x2A => "San Marino",
        0x2B => "Russia",
        0x2C => "Sweden",
        0x2D => "Slovakia",
        0x2E => "Slovenia",
        0x2F => "Turkmenistan",
        0x30 => "Türkiye",
        0x31 => "Ukraine",
        0x32 => "Vatican City",
        0x34 => "Montenegro",
        0x35 => "Serbia",
        0x36 => "Uzbekistan",
        0x37 => "Tajikistan",
        0x38 => "Kyrgyz Republic",
        0xFD => "European Community",
        0xFE => "Rest of Europe",
        0xFF => "Rest of the World",
        _ => "Reserved for Future Use",
    }
}

impl NationNumeric {
    /// Reads a `NationNumeric` at the reader's position.
    pub fn parse(cursor: &mut Cursor) -> (res: Result<NationNumeric, ParseError>)
        ensures
            final(cursor).data() == old(cursor).data(),
            old(cursor).pos() <= final(cursor).pos(),
            final(cursor).pos() == NationNumeric::parse_end(old(cursor).data(), old(cursor).pos()),
            res is Ok <==> NationNumeric::parse_ok(old(cursor).data(), old(cursor).pos()),
            res matches Ok(v) ==> NationNumeric::parsed_as(old(cursor).data(), old(cursor).pos(), v),
            res matches Err(e) ==> e == NationNumeric::parse_err(old(cursor).data(), old(cursor).pos()),
    {
        let code = cursor.read_u8()?;
        Ok(NationNumeric(nation_name_of(code).to_owned()))
    }
}

impl Parse for NationNumeric {
    open spec fn parse_ok(d: Seq<u8>, p: int) -> bool {
        bytes_ok(d, p, 1)
    }

    open spec fn parse_end(d: Seq<u8>, p: int) -> int {
        bytes_end(d, p, 1)
    }

    open spec fn parse_err(d: Seq<u8>, p: int) -> ParseError {
        ParseError::UnexpectedEnd
    }

    open spec fn parsed_as(d: Seq<u8>, p: int, v: NationNumeric) -> bool {
        v.0@ == nation_name(d[p])
    }

    fn parse(cursor: &mut Cursor) -> (res: Result<NationNumeric, ParseError>) {
        NationNumeric::parse(cursor)
    }
}

} // verus!
