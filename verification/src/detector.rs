//! Telling the kinds of tachograph files apart from their first bytes.
use crate::cursor::Cursor;
use crate::cursor::ParseError;
use vstd::prelude::*;

verus! {

/// The kinds of tachograph files.
#[derive(Debug, Clone, Copy, PartialEq, Eq, Hash, Structural)]
pub enum TachoFileType {
    VehicleUnitGen1,
    VehicleUnitGen2,
    VehicleUnitGen2V2,
    DriverCardGen1,
    DriverCardGen2,
    DriverCardGen2V2,
}

impl TachoFileType {
    /// The name of the kind, as people write it.
    pub fn to_string(&self) -> (s: String)
        ensures
            s@ == match self {
                TachoFileType::VehicleUnitGen1 => "Vehicle Unit Gen1"@,
                TachoFileType::VehicleUnitGen2 => "Vehicle Unit Gen2"@,
                TachoFileType::VehicleUnitGen2V2 => "Vehicle Unit Gen2V2"@,
                TachoFileType::DriverCardGen1 => "Driver Card Gen1"@,
                TachoFileType::DriverCardGen2 => "Driver Card Gen2"@,
                TachoFileType::DriverCardGen2V2 => "Driver Card Gen2V2"@,
            },
    {
        match self {
            TachoFileType::VehicleUnitGen1 => String::from_str("Vehicle Unit Gen1"),
            TachoFileType::VehicleUnitGen2 => String::from_str("Vehicle Unit Gen2"),
            TachoFileType::VehicleUnitGen2V2 => String::from_str("Vehicle Unit Gen2V2"),
            TachoFileType::DriverCardGen1 => String::from_str("Driver Card Gen1"),
            TachoFileType::DriverCardGen2 => String::from_str("Driver Card Gen2"),
            TachoFileType::DriverCardGen2V2 => String::from_str("Driver Card Gen2V2"),
        }
    }
}

/// The three bytes `h` stand at position `p` of `d`.
pub open spec fn header_at(d: Seq<u8>, p: int, h: Seq<u8>) -> bool {
    h.len() == 3 && 0 <= p && p + 3 <= d.len() && d.subrange(p, p + 3) == h
}

/// The three bytes `h` stand somewhere in `d` from position 2 on.
pub open spec fn has_header(d: Seq<u8>, h: Seq<u8>) -> bool {
    exists|j: int| 2 <= j && #[trigger] header_at(d, j, h)
}

/// The kind of the file `d`, if its first bytes name one: a vehicle unit file
/// starts with 0x76 and the TREP of a block of its generation; a driver card
/// file starts with 0x00 0x02 and holds the application identification of
/// its newest generation.
pub open spec fn detected_type(d: Seq<u8>) -> Option<TachoFileType> {
    if d.len() < 2 {
        None
    } else if d[0] == 0x76 {
        if 0x31 <= d[1] <= 0x35 {
            Some(TachoFileType::VehicleUnitGen2V2)
        } else if 0x21 <= d[1] <= 0x25 {
            Some(TachoFileType::VehicleUnitGen2)
        } else if 0x01 <= d[1] <= 0x05 {
            Some(TachoFileType::VehicleUnitGen1)
        } else {
            None
        }
    } else if d[0] == 0x00 && d[1] == 0x02 {
        if has_header(d, seq![0x05u8, 0x25u8, 0x02u8]) {
            Some(TachoFileType::DriverCardGen2V2)
        } else if has_header(d, seq![0x05u8, 0x01u8, 0x02u8]) {
            Some(TachoFileType::DriverCardGen2)
        } else if has_header(d, seq![0x05u8, 0x01u8, 0x00u8]) {
            Some(TachoFileType::DriverCardGen1)
        } else {
            None
        }
    } else {
        None
    }
}

/// Looks for `header` from the reader's position on, one byte at a time;
/// gives the first position where it stands, and leaves the reader after it.
pub fn find_header(reader: &mut Cursor, header: &[u8]) -> (r: Option<usize>)
    ensures
        final(reader).data() == old(reader).data(),
        match r {
            Some(p) => {
                &&& header_at(old(reader).data(), p as int, header@)
                &&& old(reader).pos() <= p
                &&& forall|j: int|
                    old(reader).pos() <= j < p ==> !header_at(old(reader).data(), j, header@)
                &&& final(reader).pos() == p + 3
            },
            None => forall|j: int|
                old(reader).pos() <= j ==> !header_at(old(reader).data(), j, header@),
        },
{
    let ghost d = old(reader).data();
    let ghost start = old(reader).pos();
    loop
        invariant
            reader.data() == d,
            d == old(reader).data(),
            start == old(reader).pos(),
            start <= reader.pos(),
            forall|j: int| start <= j < reader.pos() ==> !header_at(d, j, header@),
        decreases d.len() - reader.pos(),
    {
        let p = reader.position();
        let buffer = match reader.read_bytes(3) {
            Ok(b) => b,
            Err(_) => {
                assert forall|j: int| start <= j implies !header_at(d, j, header@) by {
                    if j >= p {
                        assert(!(j + 3 <= d.len()));
                    }
                }
                return None;
            },
        };
        if header.len() == 3 && buffer[0] == header[0] && buffer[1] == header[1] && buffer[2]
            == header[2] {
            assert(d.subrange(p as int, p + 3) =~= header@);
            return Some(p);
        }
        proof {
            if header.len() == 3 {
                assert(buffer@ == d.subrange(p as int, p + 3));
                assert(!header_at(d, p as int, header@)) by {
                    if header_at(d, p as int, header@) {
                        assert(buffer@[0] == header@[0]);
                        assert(buffer@[1] == header@[1]);
                        assert(buffer@[2] == header@[2]);
                    }
                }
            }
        }
        reader.set_position(p + 1);
    }
}

/// Whether `header` stands somewhere in `buffer` from position 2 on.
fn has_header_from_2(buffer: &[u8], header: &[u8]) -> (r: bool)
    requires
        buffer.len() >= 2,
    ensures
        r == has_header(buffer@, header@),
{
    let mut reader = Cursor::new(buffer);
    reader.set_position(2);
    let found = find_header(&mut reader, header);
    proof {
        match found {
            Some(p) => {
                assert(header_at(buffer@, p as int, header@));
            },
            None => {},
        }
    }
    found.is_some()
}

/// The kind of a file, from its first two bytes `fb` and `sb` and, for a
/// driver card, the application identifications that `buffer` holds.
fn detect(fb: u8, sb: u8, buffer: &[u8]) -> (res: Result<TachoFileType, ParseError>)
    requires
        buffer.len() >= 2,
        fb == buffer[0],
        sb == buffer[1],
    ensures
        match detected_type(buffer@) {
            Some(t) => res == Ok::<TachoFileType, ParseError>(t),
            None => res == Err::<TachoFileType, ParseError>(ParseError::UnsupportedFileType),
        },
{
    if fb == 0x76 {
        if 0x31 <= sb && sb <= 0x35 {
            return Ok(TachoFileType::VehicleUnitGen2V2);
        }
        if 0x21 <= sb && sb <= 0x25 {
            return Ok(TachoFileType::VehicleUnitGen2);
        }
        if 0x01 <= sb && sb <= 0x05 {
            return Ok(TachoFileType::VehicleUnitGen1);
        }
        Err(ParseError::UnsupportedFileType)
    } else if fb == 0x00 && sb == 0x02 {
        let gen2v2: [u8; 3] = [0x05, 0x25, 0x02];
        let gen2: [u8; 3] = [0x05, 0x01, 0x02];
        let gen1: [u8; 3] = [0x05, 0x01, 0x00];
        assert(gen2v2@ =~= seq![0x05u8, 0x25u8, 0x02u8]);
        assert(gen2@ =~= seq![0x05u8, 0x01u8, 0x02u8]);
        assert(gen1@ =~= seq![0x05u8, 0x01u8, 0x00u8]);
        if has_header_from_2(buffer, &gen2v2) {
            return Ok(TachoFileType::DriverCardGen2V2);
        }
        if has_header_from_2(buffer, &gen2) {
            return Ok(TachoFileType::DriverCardGen2);
        }
        if has_header_from_2(buffer, &gen1) {
            return Ok(TachoFileType::DriverCardGen1);
        }
        Err(ParseError::UnsupportedFileType)
    } else {
        Err(ParseError::UnsupportedFileType)
    }
}

/// The kind of the file `bytes`; fails when it has fewer than two bytes or
/// they name no kind.
pub fn detect_from_bytes(bytes: &[u8]) -> (res: Result<TachoFileType, ParseError>)
    ensures
        res is Ok <==> detected_type(bytes@) is Some,
        res matches Ok(t) ==> detected_type(bytes@) == Some(t),
        res matches Err(e) ==> e == if bytes@.len() < 2 {
            ParseError::UnexpectedEnd
        } else {
            ParseError::UnsupportedFileType
        },
{
    if bytes.len() < 2 {
        return Err(ParseError::UnexpectedEnd);
    }
    detect(bytes[0], bytes[1], bytes)
}

} // verus!
