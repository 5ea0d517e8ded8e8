//! The data dictionary of the tachograph regulation (Appendix 1 of Annex IC):
//! the types shared by cards and vehicle units of every generation.
pub mod external;
pub mod gen1;
pub mod gen2;
pub mod gen2v2;

use crate::cursor::{
    be16, be32, bytes_end, bytes_ok, optional_as, parse_optional, Cursor, Parse, ParseDyn,
    ParseError,
};
use crate::text::{
    code_page_text, decode_code_page, decode_utf8_text, trim_start_char, trim_start_matching,
    trim_text, trimmed, utf8_text,
};
use vstd::prelude::*;
use vstd::slice::{slice_subrange, slice_to_vec};

verus! {

/// The upper-case hexadecimal digit for `n` (below 16).
pub open spec fn hex_char(n: int) -> char {
    if n < 10 {
        (48 + n) as char
    } else {
        (55 + n) as char
    }
}

/// Two upper-case hexadecimal digits per byte, as `format!("{:02X}")` writes them.
pub open spec fn hex_text(b: Seq<u8>) -> Seq<char>
    decreases b.len(),
{
    if b.len() == 0 {
        Seq::empty()
    } else {
        hex_text(b.drop_last()) + seq![hex_char((b.last() / 16) as int), hex_char((b.last() % 16) as int)]
    }
}

/// The one-character string of the hexadecimal digit `n`.
fn hex_digit(n: u8) -> (s: &'static str)
    requires
        n < 16,
    ensures
        s@ == seq![hex_char(n as int)],
{
    proof {
        reveal_strlit("0");
        reveal_strlit("1");
        reveal_strlit("2");
        reveal_strlit("3");
        reveal_strlit("4");
        reveal_strlit("5");
        reveal_strlit("6");
        reveal_strlit("7");
        reveal_strlit("8");
        reveal_strlit("9");
        reveal_strlit("A");
        reveal_strlit("B");
        reveal_strlit("C");
        reveal_strlit("D");
        reveal_strlit("E");
        reveal_strlit("F");
    }
    match n {
        0 => "0",
        1 => "1",
        2 => "2",
        3 => "3",
        4 => "4",
        5 => "5",
        6 => "6",
        7 => "7",
        8 => "8",
        9 => "9",
        10 => "A",
        11 => "B",
        12 => "C",
        13 => "D",
        14 => "E",
        _ => "F",
    }
}

/// The hexadecimal text of `b`.
pub fn hex_string(b: &[u8]) -> (s: String)
    ensures
        s@ == hex_text(b@),
{
    let mut s = String::new();
    let mut i: usize = 0;
    while i < b.len()
        invariant
            i <= b.len(),
            s@ == hex_text(b@.subrange(0, i as int)),
        decreases b.len() - i,
    {
        let x = b[i];
        s.append(hex_digit(x / 16));
        s.append(hex_digit(x % 16));
        proof {
            let t = b@.subrange(0, i + 1);
            assert(t.drop_last() =~= b@.subrange(0, i as int));
        }
        i = i + 1;
    }
    proof {
        assert(b@.subrange(0, b@.len() as int) =~= b@);
    }
    s
}

/// Every half-byte of `b` is a decimal digit.
pub open spec fn bcd_digits_ok(b: Seq<u8>) -> bool {
    forall|i: int| 0 <= i < b.len() ==> #[trigger] b[i] / 16 <= 9 && b[i] % 16 <= 9
}

/// The decimal number that the binary-coded digits of `b` spell.
pub open spec fn bcd_value(b: Seq<u8>) -> int
    decreases b.len(),
{
    if b.len() == 0 {
        0
    } else {
        bcd_value(b.drop_last()) * 100 + (b.last() / 16) * 10 + b.last() % 16
    }
}

proof fn lemma_bcd_value_bound(b: Seq<u8>)
    requires
        bcd_digits_ok(b),
    ensures
        0 <= bcd_value(b) < vstd::arithmetic::power::pow(100, b.len()),
    decreases b.len(),
{
    reveal(vstd::arithmetic::power::pow);
    if b.len() > 0 {
        assert(bcd_digits_ok(b.drop_last())) by {
            assert forall|i: int| 0 <= i < b.drop_last().len() implies #[trigger] b.drop_last()[i]
                / 16 <= 9 && b.drop_last()[i] % 16 <= 9 by {
                assert(b.drop_last()[i] == b[i]);
            }
        }
        lemma_bcd_value_bound(b.drop_last());
        let x = b.last();
        assert(b[b.len() - 1] / 16 <= 9);
        let q = vstd::arithmetic::power::pow(100, (b.len() - 1) as nat);
        assert(bcd_value(b) < q * 100) by (nonlinear_arith)
            requires
                bcd_value(b) == bcd_value(b.drop_last()) * 100 + (x / 16) * 10 + x % 16,
                0 <= bcd_value(b.drop_last()) < q,
                x / 16 <= 9,
                x % 16 <= 9,
        ;
        assert(q * 100 == vstd::arithmetic::power::pow(100, b.len())) by {
            vstd::arithmetic::power::lemma_pow_adds(100, (b.len() - 1) as nat, 1);
        }
    }
}

/// Reads `n` bytes of binary-coded decimal digits and their number, as the
/// data dictionary's `BCDString` fields are read into numbers. The bytes are
/// consumed whether or not every half-byte is a digit.
pub fn read_bcd_number(cursor: &mut Cursor, n: usize) -> (res: Result<u32, ParseError>)
    requires
        n <= 4,
    ensures
        final(cursor).data() == old(cursor).data(),
        old(cursor).pos() <= final(cursor).pos(),
        final(cursor).pos() == bytes_end(old(cursor).data(), old(cursor).pos(), n as int),
        res is Ok <==> bytes_ok(old(cursor).data(), old(cursor).pos(), n as int) && bcd_digits_ok(
            old(cursor).data().subrange(old(cursor).pos(), old(cursor).pos() + n),
        ),
        res matches Ok(v) ==> v == bcd_value(
            old(cursor).data().subrange(old(cursor).pos(), old(cursor).pos() + n),
        ),
        res matches Ok(v) ==> (n <= 1 ==> v < 100) && (n <= 2 ==> v < 10000),
        res matches Err(e) ==> e == if bytes_ok(old(cursor).data(), old(cursor).pos(), n as int) {
            ParseError::InvalidValue
        } else {
            ParseError::UnexpectedEnd
        },
{
    let b = cursor.read_bytes(n)?;
    match bcd_number(b.as_slice()) {
        Some(v) => Ok(v),
        None => Err(ParseError::InvalidValue),
    }
}

/// The number that the binary-coded decimal digits of `b` spell, if every
/// half-byte is a digit.
pub fn bcd_number(b: &[u8]) -> (r: Option<u32>)
    requires
        b@.len() <= 4,
    ensures
        r is Some <==> bcd_digits_ok(b@),
        r matches Some(v) ==> v == bcd_value(b@),
        r matches Some(v) ==> (b@.len() <= 1 ==> v < 100) && (b@.len() <= 2 ==> v < 10000),
{
    let n = b.len();
    let mut v: u32 = 0;
    let mut i: usize = 0;
    while i < n
        invariant
            n == b@.len(),
            n <= 4,
            i <= n,
            bcd_digits_ok(b@.subrange(0, i as int)),
            v == bcd_value(b@.subrange(0, i as int)),
        decreases n - i,
    {
        let x = b[i];
        if x / 16 > 9 || x % 16 > 9 {
            proof {
                assert(b@[i as int] == x);
            }
            return None;
        }
        proof {
            let t = b@.subrange(0, i + 1);
            assert(t.drop_last() =~= b@.subrange(0, i as int));
            assert forall|j: int| 0 <= j < t.len() implies #[trigger] t[j] / 16 <= 9 && t[j] % 16
                <= 9 by {
                if j < i {
                    assert(t[j] == b@.subrange(0, i as int)[j]);
                }
            }
            lemma_bcd_value_bound(t);
            vstd::arithmetic::power::lemma_pow_increases(100, (i + 1) as nat, 4);
            reveal_with_fuel(vstd::arithmetic::power::pow, 5);
        }
        v = v * 100 + (x / 16) as u32 * 10 + (x % 16) as u32;
        i = i + 1;
    }
    proof {
        assert(b@.subrange(0, n as int) =~= b@);
        lemma_bcd_value_bound(b@);
        reveal_with_fuel(vstd::arithmetic::power::pow, 3);
    }
    Some(v)
}

/// BCDString (appendix 2.7): the digits of `size` bytes as hexadecimal text.
#[derive(Debug)]
pub struct BCDString(pub String);

impl BCDString {
    /// Reads a `BCDString` of `size` bytes at the reader's position.
    pub fn parse_dyn_size(cursor: &mut Cursor, size: usize) -> (res: Result<BCDString, ParseError>)
        ensures
            final(cursor).data() == old(cursor).data(),
            old(cursor).pos() <= final(cursor).pos(),
            final(cursor).pos() == BCDString::dyn_end(old(cursor).data(), old(cursor).pos(), size as int),
            res is Ok <==> BCDString::dyn_ok(old(cursor).data(), old(cursor).pos(), size as int),
            res matches Ok(v) ==> BCDString::dyn_as(old(cursor).data(), old(cursor).pos(), size as int, v),
            res matches Err(e) ==> e == BCDString::dyn_err(old(cursor).data(), old(cursor).pos(), size as int),
    {
        let b = cursor.read_bytes(size)?;
        Ok(BCDString(hex_string(b.as_slice())))
    }
}

impl ParseDyn for BCDString {
    open spec fn dyn_ok(d: Seq<u8>, p: int, size: int) -> bool {
        bytes_ok(d, p, size)
    }

    open spec fn dyn_end(d: Seq<u8>, p: int, size: int) -> int {
        bytes_end(d, p, size)
    }

    open spec fn dyn_err(d: Seq<u8>, p: int, size: int) -> ParseError {
        ParseError::UnexpectedEnd
    }

    open spec fn dyn_as(d: Seq<u8>, p: int, size: int, v: BCDString) -> bool {
        v.0@ == hex_text(d.subrange(p, p + size))
    }

    fn parse_dyn_size(cursor: &mut Cursor, size: usize) -> (res: Result<BCDString, ParseError>) {
        BCDString::parse_dyn_size(cursor, size)
    }
}

/// IA5String: text of a fixed number of bytes, without surrounding white space.
#[derive(Debug, Clone)]
pub struct IA5String(pub String);

/// The text of an IA5String read from the bytes `b` as UTF-8.
pub open spec fn ia5_text(b: Seq<u8>) -> Seq<char> {
    trimmed(utf8_text(b))
}

/// The text of a string read from the bytes `b` in the character set `code_page`.
pub open spec fn code_page_string(code_page: u8, b: Seq<u8>) -> Seq<char> {
    trim_start_char(trimmed(code_page_text(code_page, b)), '\u{0001}')
}

impl IA5String {
    /// Reads a `IA5String` of `size` bytes at the reader's position.
    pub fn parse_dyn_size(cursor: &mut Cursor, size: usize) -> (res: Result<IA5String, ParseError>)
        ensures
            final(cursor).data() == old(cursor).data(),
            old(cursor).pos() <= final(cursor).pos(),
            final(cursor).pos() == IA5String::dyn_end(old(cursor).data(), old(cursor).pos(), size as int),
            res is Ok <==> IA5String::dyn_ok(old(cursor).data(), old(cursor).pos(), size as int),
            res matches Ok(v) ==> IA5String::dyn_as(old(cursor).data(), old(cursor).pos(), size as int, v),
            res matches Err(e) ==> e == IA5String::dyn_err(old(cursor).data(), old(cursor).pos(), size as int),
    {
        let b = cursor.read_bytes(size)?;
        let text = decode_utf8_text(b.as_slice());
        Ok(IA5String(trim_text(text.as_str())))
    }
}

impl ParseDyn for IA5String {
    open spec fn dyn_ok(d: Seq<u8>, p: int, size: int) -> bool {
        bytes_ok(d, p, size)
    }

    open spec fn dyn_end(d: Seq<u8>, p: int, size: int) -> int {
        bytes_end(d, p, size)
    }

    open spec fn dyn_err(d: Seq<u8>, p: int, size: int) -> ParseError {
        ParseError::UnexpectedEnd
    }

    open spec fn dyn_as(d: Seq<u8>, p: int, size: int, v: IA5String) -> bool {
        v.0@ == ia5_text(d.subrange(p, p + size))
    }

    fn parse_dyn_size(cursor: &mut Cursor, size: usize) -> (res: Result<IA5String, ParseError>) {
        IA5String::parse_dyn_size(cursor, size)
    }
}

impl IA5String {
    /// Reads `size` bytes of text in the character set `code_page`; leading
    /// U+0001 characters are dropped after the white space.
    pub fn parse_with_code_page(cursor: &mut Cursor, size: usize, code_page: u8) -> (res: Result<
        IA5String,
        ParseError,
    >)
        ensures
            final(cursor).data() == old(cursor).data(),
            old(cursor).pos() <= final(cursor).pos(),
            final(cursor).pos() == bytes_end(old(cursor).data(), old(cursor).pos(), size as int),
            res is Ok <==> bytes_ok(old(cursor).data(), old(cursor).pos(), size as int),
            res matches Ok(v) ==> v.0@ == code_page_string(
                code_page,
                old(cursor).data().subrange(old(cursor).pos(), old(cursor).pos() + size),
            ),
            res matches Err(e) ==> e == ParseError::UnexpectedEnd,
    {
        let b = cursor.read_bytes(size)?;
        let text = decode_code_page(b.as_slice(), code_page);
        let t = trim_text(text.as_str());
        Ok(IA5String(trim_start_matching(t.as_str(), '\u{0001}')))
    }
}

/// A string in a declared character set: the code page byte, then `SIZE`
/// bytes of text. Name, Address and VehicleRegistrationNumber have this form.
pub open spec fn code_page_ok(d: Seq<u8>, p: int, size: int) -> bool {
    bytes_ok(d, p, 1 + size)
}

pub open spec fn code_page_end(d: Seq<u8>, p: int, size: int) -> int {
    bytes_end(d, p, 1 + size)
}

pub open spec fn code_page_as(d: Seq<u8>, p: int, size: int, code_page: u8, text: IA5String) -> bool {
    code_page == d[p] && text.0@ == code_page_string(d[p], d.subrange(p + 1, p + 1 + size))
}

pub(crate) fn parse_code_page_string(cursor: &mut Cursor, size: usize) -> (res: Result<(u8, IA5String), ParseError>)
    ensures
        final(cursor).data() == old(cursor).data(),
        old(cursor).pos() <= final(cursor).pos(),
        final(cursor).pos() == code_page_end(old(cursor).data(), old(cursor).pos(), size as int),
        res is Ok <==> code_page_ok(old(cursor).data(), old(cursor).pos(), size as int),
        res matches Ok(v) ==> code_page_as(old(cursor).data(), old(cursor).pos(), size as int, v.0, v.1),
        res matches Err(e) ==> e == ParseError::UnexpectedEnd,
{
    let code_page = cursor.read_u8()?;
    let text = IA5String::parse_with_code_page(cursor, size, code_page)?;
    Ok((code_page, text))
}

/// Name (appendix 2.99): a code page and 35 bytes of text.
#[derive(Debug)]
pub struct Name {
    pub code_page: u8,
    pub name: IA5String,
}

impl Name {
    /// Reads a `Name` at the reader's position.
    pub fn parse(cursor: &mut Cursor) -> (res: Result<Name, ParseError>)
        ensures
            final(cursor).data() == old(cursor).data(),
            old(cursor).pos() <= final(cursor).pos(),
            final(cursor).pos() == Name::parse_end(old(cursor).data(), old(cursor).pos()),
            res is Ok <==> Name::parse_ok(old(cursor).data(), old(cursor).pos()),
            res matches Ok(v) ==> Name::parsed_as(old(cursor).data(), old(cursor).pos(), v),
            res matches Err(e) ==> e == Name::parse_err(old(cursor).data(), old(cursor).pos()),
    {
        let (code_page, name) = parse_code_page_string(cursor, 35)?;
        Ok(Name { code_page, name })
    }
}

impl Parse for Name {
    open spec fn parse_ok(d: Seq<u8>, p: int) -> bool {
        code_page_ok(d, p, 35)
    }

    open spec fn parse_end(d: Seq<u8>, p: int) -> int {
        code_page_end(d, p, 35)
    }

    open spec fn parse_err(d: Seq<u8>, p: int) -> ParseError {
        ParseError::UnexpectedEnd
    }

    open spec fn parsed_as(d: Seq<u8>, p: int, v: Name) -> bool {
        code_page_as(d, p, 35, v.code_page, v.name)
    }

    fn parse(cursor: &mut Cursor) -> (res: Result<Name, ParseError>) {
        Name::parse(cursor)
    }
}

/// Address (appendix 2.2): a code page and 35 bytes of text.
#[derive(Debug)]
pub struct Address {
    pub code_page: u8,
    pub address: IA5String,
}

impl Address {
    /// Reads a `Address` at the reader's position.
    pub fn parse(cursor: &mut Cursor) -> (res: Result<Address, ParseError>)
        ensures
            final(cursor).data() == old(cursor).data(),
            old(cursor).pos() <= final(cursor).pos(),
            final(cursor).pos() == Address::parse_end(old(cursor).data(), old(cursor).pos()),
            res is Ok <==> Address::parse_ok(old(cursor).data(), old(cursor).pos()),
            res matches Ok(v) ==> Address::parsed_as(old(cursor).data(), old(cursor).pos(), v),
            res matches Err(e) ==> e == Address::parse_err(old(cursor).data(), old(cursor).pos()),
    {
        let (code_page, address) = parse_code_page_string(cursor, 35)?;
        Ok(Address { code_page, address })
    }
}

impl Parse for Address {
    open spec fn parse_ok(d: Seq<u8>, p: int) -> bool {
        code_page_ok(d, p, 35)
    }

    open spec fn parse_end(d: Seq<u8>, p: int) -> int {
        code_page_end(d, p, 35)
    }

    open spec fn parse_err(d: Seq<u8>, p: int) -> ParseError {
        ParseError::UnexpectedEnd
    }

    open spec fn parsed_as(d: Seq<u8>, p: int, v: Address) -> bool {
        code_page_as(d, p, 35, v.code_page, v.address)
    }

    fn parse(cursor: &mut Cursor) -> (res: Result<Address, ParseError>) {
        Address::parse(cursor)
    }
}

/// VehicleRegistrationNumber (appendix 2.168): a code page and 13 bytes of text.
#[derive(Debug)]
pub struct VehicleRegistrationNumber {
    pub code_page: u8,
    pub vehicle_reg_number: IA5String,
}

impl VehicleRegistrationNumber {
    /// Reads a `VehicleRegistrationNumber` at the reader's position.
    pub fn parse(cursor: &mut Cursor) -> (res: Result<VehicleRegistrationNumber, ParseError>)
        ensures
            final(cursor).data() == old(cursor).data(),
            old(cursor).pos() <= final(cursor).pos(),
            final(cursor).pos() == VehicleRegistrationNumber::parse_end(old(cursor).data(), old(cursor).pos()),
            res is Ok <==> VehicleRegistrationNumber::parse_ok(old(cursor).data(), old(cursor).pos()),
            res matches Ok(v) ==> VehicleRegistrationNumber::parsed_as(old(cursor).data(), old(cursor).pos(), v),
            res matches Err(e) ==> e == VehicleRegistrationNumber::parse_err(old(cursor).data(), old(cursor).pos()),
    {
        let (code_page, vehicle_reg_number) = parse_code_page_string(cursor, 13)?;
        Ok(VehicleRegistrationNumber { code_page, vehicle_reg_number })
    }
}

impl Parse for VehicleRegistrationNumber {
    open spec fn parse_ok(d: Seq<u8>, p: int) -> bool {
        code_page_ok(d, p, 13)
    }

    open spec fn parse_end(d: Seq<u8>, p: int) -> int {
        code_page_end(d, p, 13)
    }

    open spec fn parse_err(d: Seq<u8>, p: int) -> ParseError {
        ParseError::UnexpectedEnd
    }

    open spec fn parsed_as(d: Seq<u8>, p: int, v: VehicleRegistrationNumber) -> bool {
        code_page_as(d, p, 13, v.code_page, v.vehicle_reg_number)
    }

    fn parse(cursor: &mut Cursor) -> (res: Result<VehicleRegistrationNumber, ParseError>) {
        VehicleRegistrationNumber::parse(cursor)
    }
}

/// TimeReal (appendix 2.162): seconds since 1970-01-01 00:00 UTC, from 1 up to
/// the largest signed 32-bit value (2038-01-19).
#[derive(Debug, Clone, Copy, PartialEq, Eq, Structural)]
pub struct TimeReal(pub u32);

impl TimeReal {
    /// The number of bytes of a TimeReal.
    pub const SIZE: usize = 4;

    /// The timestamps that a TimeReal may hold.
    pub open spec fn valid_timestamp(t: int) -> bool {
        1 <= t <= 2147483647
    }

    /// Seconds since 1970-01-01 00:00 UTC.
    pub fn timestamp(&self) -> (r: u32)
        ensures
            r == self.0,
    {
        self.0
    }
}

impl TimeReal {
    /// Reads a `TimeReal` at the reader's position.
    pub fn parse(cursor: &mut Cursor) -> (res: Result<TimeReal, ParseError>)
        ensures
            final(cursor).data() == old(cursor).data(),
            old(cursor).pos() <= final(cursor).pos(),
            final(cursor).pos() == TimeReal::parse_end(old(cursor).data(), old(cursor).pos()),
            res is Ok <==> TimeReal::parse_ok(old(cursor).data(), old(cursor).pos()),
            res matches Ok(v) ==> TimeReal::parsed_as(old(cursor).data(), old(cursor).pos(), v),
            res matches Err(e) ==> e == TimeReal::parse_err(old(cursor).data(), old(cursor).pos()),
    {
        let unix_timestamp = cursor.read_u32_be()?;
        if unix_timestamp > 2_147_483_647 || unix_timestamp < 1 {
            return Err(ParseError::InvalidValue);
        }
        Ok(TimeReal(unix_timestamp))
    }
}

impl Parse for TimeReal {
    open spec fn parse_ok(d: Seq<u8>, p: int) -> bool {
        bytes_ok(d, p, 4) && TimeReal::valid_timestamp(be32(d, p))
    }

    open spec fn parse_end(d: Seq<u8>, p: int) -> int {
        bytes_end(d, p, 4)
    }

    open spec fn parse_err(d: Seq<u8>, p: int) -> ParseError {
        if !bytes_ok(d, p, 4) {
            ParseError::UnexpectedEnd
        } else {
            ParseError::InvalidValue
        }
    }

    open spec fn parsed_as(d: Seq<u8>, p: int, v: TimeReal) -> bool {
        v.0 == be32(d, p)
    }

    fn parse(cursor: &mut Cursor) -> (res: Result<TimeReal, ParseError>) {
        TimeReal::parse(cursor)
    }
}

/// CardNumber (appendix 2.26): the number of a driver card, of another card
/// (its owner), or nothing when the card type is not known. Every form takes 16 bytes.
#[derive(Debug)]
pub enum CardNumber {
    Driver {
        driver_identification: IA5String,
        card_replacement_index: CardReplacementIndex,
        card_renewal_index: CardRenewalIndex,
    },
    Owner {
        owner_identification: IA5String,
        card_consecutive_index: CardConsecutiveIndex,
        card_replacement_index: CardReplacementIndex,
        card_renewal_index: CardRenewalIndex,
    },
    Unknown,
}

impl CardNumber {
    /// The number of bytes of a card number.
    pub const SIZE: usize = 16;

    /// `v` is the driver card number at `p`.
    pub open spec fn driver_as(d: Seq<u8>, p: int, v: CardNumber) -> bool {
        v matches CardNumber::Driver {
            driver_identification,
            card_replacement_index,
            card_renewal_index,
        } && IA5String::dyn_as(d, p, 14, driver_identification) && CardReplacementIndex::parsed_as(
            d,
            p + 14,
            card_replacement_index,
        ) && CardRenewalIndex::parsed_as(d, p + 15, card_renewal_index)
    }

    /// `v` is the owner card number at `p`.
    pub open spec fn owner_as(d: Seq<u8>, p: int, v: CardNumber) -> bool {
        v matches CardNumber::Owner {
            owner_identification,
            card_consecutive_index,
            card_replacement_index,
            card_renewal_index,
        } && IA5String::dyn_as(d, p, 13, owner_identification) && CardConsecutiveIndex::parsed_as(
            d,
            p + 13,
            card_consecutive_index,
        ) && CardReplacementIndex::parsed_as(d, p + 14, card_replacement_index)
            && CardRenewalIndex::parsed_as(d, p + 15, card_renewal_index)
    }

    /// Skips the 16 bytes of a card number of unknown form.
    pub fn parse_unknown(cursor: &mut Cursor) -> (res: Result<CardNumber, ParseError>)
        ensures
            final(cursor).data() == old(cursor).data(),
            old(cursor).pos() <= final(cursor).pos(),
            final(cursor).pos() == bytes_end(old(cursor).data(), old(cursor).pos(), 16),
            res is Ok <==> bytes_ok(old(cursor).data(), old(cursor).pos(), 16),
            res matches Err(e) ==> e == ParseError::UnexpectedEnd,
            res matches Ok(v) ==> v is Unknown,
    {
        let _ = cursor.read_bytes(16)?;
        Ok(CardNumber::Unknown)
    }

    /// Reads a driver card number.
    pub fn parse_driver(cursor: &mut Cursor) -> (res: Result<CardNumber, ParseError>)
        ensures
            final(cursor).data() == old(cursor).data(),
            old(cursor).pos() <= final(cursor).pos(),
            final(cursor).pos() == bytes_end(old(cursor).data(), old(cursor).pos(), 16),
            res is Ok <==> bytes_ok(old(cursor).data(), old(cursor).pos(), 16),
            res matches Err(e) ==> e == ParseError::UnexpectedEnd,
            res matches Ok(v) ==> CardNumber::driver_as(old(cursor).data(), old(cursor).pos(), v),
    {
        let driver_identification = IA5String::parse_dyn_size(cursor, 14)?;
        let card_replacement_index = CardReplacementIndex::parse(cursor)?;
        let card_renewal_index = CardRenewalIndex::parse(cursor)?;
        Ok(CardNumber::Driver { driver_identification, card_replacement_index, card_renewal_index })
    }

    /// Reads the card number of a workshop, control or company card.
    pub fn parse_owner(cursor: &mut Cursor) -> (res: Result<CardNumber, ParseError>)
        ensures
            final(cursor).data() == old(cursor).data(),
            old(cursor).pos() <= final(cursor).pos(),
            final(cursor).pos() == bytes_end(old(cursor).data(), old(cursor).pos(), 16),
            res is Ok <==> bytes_ok(old(cursor).data(), old(cursor).pos(), 16),
            res matches Err(e) ==> e == ParseError::UnexpectedEnd,
            res matches Ok(v) ==> CardNumber::owner_as(old(cursor).data(), old(cursor).pos(), v),
    {
        let owner_identification = IA5String::parse_dyn_size(cursor, 13)?;
        let card_consecutive_index = CardConsecutiveIndex::parse(cursor)?;
        let card_replacement_index = CardReplacementIndex::parse(cursor)?;
        let card_renewal_index = CardRenewalIndex::parse(cursor)?;
        Ok(
            CardNumber::Owner {
                owner_identification,
                card_consecutive_index,
                card_replacement_index,
                card_renewal_index,
            },
        )
    }
}

/// CardStructureVersion (appendix 2.36): the generation that a card's structure follows.
#[derive(Debug, Clone, Copy, PartialEq, Eq, Structural)]
pub enum CardStructureVersion {
    Gen1,
    Gen2,
    Gen2V2,
}

impl CardStructureVersion {
    /// The version that the two bytes `fb`, `sb` encode, if any.
    pub open spec fn from_bytes(fb: u8, sb: u8) -> Option<CardStructureVersion> {
        if fb == 0 && sb == 0 {
            Some(CardStructureVersion::Gen1)
        } else if fb == 1 && sb == 0 {
            Some(CardStructureVersion::Gen2)
        } else if fb == 1 && sb == 1 {
            Some(CardStructureVersion::Gen2V2)
        } else {
            None
        }
    }
}

impl CardStructureVersion {
    /// Reads a `CardStructureVersion` at the reader's position.
    pub fn parse(cursor: &mut Cursor) -> (res: Result<CardStructureVersion, ParseError>)
        ensures
            final(cursor).data() == old(cursor).data(),
            old(cursor).pos() <= final(cursor).pos(),
            final(cursor).pos() == CardStructureVersion::parse_end(old(cursor).data(), old(cursor).pos()),
            res is Ok <==> CardStructureVersion::parse_ok(old(cursor).data(), old(cursor).pos()),
            res matches Ok(v) ==> CardStructureVersion::parsed_as(old(cursor).data(), old(cursor).pos(), v),
            res matches Err(e) ==> e == CardStructureVersion::parse_err(old(cursor).data(), old(cursor).pos()),
    {
        let fb = cursor.read_u8()?;
        let sb = cursor.read_u8()?;
        if fb == 0 && sb == 0 {
            Ok(CardStructureVersion::Gen1)
        } else if fb == 1 && sb == 0 {
            Ok(CardStructureVersion::Gen2)
        } else if fb == 1 && sb == 1 {
            Ok(CardStructureVersion::Gen2V2)
        } else {
            Err(ParseError::InvalidValue)
        }
    }
}

impl Parse for CardStructureVersion {
    open spec fn parse_ok(d: Seq<u8>, p: int) -> bool {
        bytes_ok(d, p, 2) && CardStructureVersion::from_bytes(d[p], d[p + 1]) is Some
    }

    open spec fn parse_end(d: Seq<u8>, p: int) -> int {
        bytes_end(d, p, 2)
    }

    open spec fn parse_err(d: Seq<u8>, p: int) -> ParseError {
        if !bytes_ok(d, p, 2) {
            ParseError::UnexpectedEnd
        } else {
            ParseError::InvalidValue
        }
    }

    open spec fn parsed_as(d: Seq<u8>, p: int, v: CardStructureVersion) -> bool {
        CardStructureVersion::from_bytes(d[p], d[p + 1]) == Some(v)
    }

    fn parse(cursor: &mut Cursor) -> (res: Result<CardStructureVersion, ParseError>) {
        CardStructureVersion::parse(cursor)
    }
}

/// EmbedderIcAssemblerId (appendix 2.65): the country and the module embedder (two BCD bytes read as a number) of a card chip.
#[derive(Debug)]
pub struct EmbedderIcAssemblerId {
    pub country_code: IA5String,
    pub module_embedder: u16,
    pub manufacturer_information: u8,
}

impl EmbedderIcAssemblerId {
    /// Reads a `EmbedderIcAssemblerId` at the reader's position.
    pub fn parse(cursor: &mut Cursor) -> (res: Result<EmbedderIcAssemblerId, ParseError>)
        ensures
            final(cursor).data() == old(cursor).data(),
            old(cursor).pos() <= final(cursor).pos(),
            final(cursor).pos() == EmbedderIcAssemblerId::parse_end(old(cursor).data(), old(cursor).pos()),
            res is Ok <==> EmbedderIcAssemblerId::parse_ok(old(cursor).data(), old(cursor).pos()),
            res matches Ok(v) ==> EmbedderIcAssemblerId::parsed_as(old(cursor).data(), old(cursor).pos(), v),
            res matches Err(e) ==> e == EmbedderIcAssemblerId::parse_err(old(cursor).data(), old(cursor).pos()),
    {
        let country_code = IA5String::parse_dyn_size(cursor, 2)?;
        let module_embedder = read_bcd_number(cursor, 2)? as u16;
        let manufacturer_information = u8::parse(cursor)?;
        Ok(EmbedderIcAssemblerId { country_code, module_embedder, manufacturer_information })
    }
}

impl Parse for EmbedderIcAssemblerId {
    open spec fn parse_ok(d: Seq<u8>, p: int) -> bool {
        let p1 = IA5String::dyn_end(d, p, 2);
        let p2 = bytes_end(d, p1, 2);
        IA5String::dyn_ok(d, p, 2)
            && bytes_ok(d, p1, 2) && bcd_digits_ok(d.subrange(p1, p1 + 2))
            && u8::parse_ok(d, p2)
    }

    open spec fn parse_end(d: Seq<u8>, p: int) -> int {
        let p1 = IA5String::dyn_end(d, p, 2);
        let p2 = bytes_end(d, p1, 2);
        let p3 = u8::parse_end(d, p2);
        if !IA5String::dyn_ok(d, p, 2) {
            p1
        } else if !(bytes_ok(d, p1, 2) && bcd_digits_ok(d.subrange(p1, p1 + 2))) {
            p2
        } else if !u8::parse_ok(d, p2) {
            p3
        } else {
            p3
        }
    }

    open spec fn parsed_as(d: Seq<u8>, p: int, v: EmbedderIcAssemblerId) -> bool {
        let p1 = IA5String::dyn_end(d, p, 2);
        let p2 = bytes_end(d, p1, 2);
        IA5String::dyn_as(d, p, 2, v.country_code)
            && v.module_embedder == bcd_value(d.subrange(p1, p1 + 2))
            && u8::parsed_as(d, p2, v.manufacturer_information)
    }

    open spec fn parse_err(d: Seq<u8>, p: int) -> ParseError {
        let p1 = IA5String::dyn_end(d, p, 2);
        let p2 = bytes_end(d, p1, 2);
        if !IA5String::dyn_ok(d, p, 2) {
            IA5String::dyn_err(d, p, 2)
        } else if !(bytes_ok(d, p1, 2) && bcd_digits_ok(d.subrange(p1, p1 + 2))) {
            (if !bytes_ok(d, p1, 2) { ParseError::UnexpectedEnd } else { ParseError::InvalidValue })
        } else if !u8::parse_ok(d, p2) {
            u8::parse_err(d, p2)
        } else {
            ParseError::InvalidValue
        }
    }

    fn parse(cursor: &mut Cursor) -> (res: Result<EmbedderIcAssemblerId, ParseError>) {
        EmbedderIcAssemblerId::parse(cursor)
    }
}

/// CardReplacementIndex (appendix 2.31): one character.
#[derive(Debug)]
pub struct CardReplacementIndex(pub IA5String);

impl CardReplacementIndex {
    /// Reads a `CardReplacementIndex` at the reader's position.
    pub fn parse(cursor: &mut Cursor) -> (res: Result<CardReplacementIndex, ParseError>)
        ensures
            final(cursor).data() == old(cursor).data(),
            old(cursor).pos() <= final(cursor).pos(),
            final(cursor).pos() == CardReplacementIndex::parse_end(old(cursor).data(), old(cursor).pos()),
            res is Ok <==> CardReplacementIndex::parse_ok(old(cursor).data(), old(cursor).pos()),
            res matches Ok(v) ==> CardReplacementIndex::parsed_as(old(cursor).data(), old(cursor).pos(), v),
            res matches Err(e) ==> e == CardReplacementIndex::parse_err(old(cursor).data(), old(cursor).pos()),
    {
        let value = IA5String::parse_dyn_size(cursor, 1)?;
        Ok(CardReplacementIndex(value))
    }
}

impl Parse for CardReplacementIndex {
    open spec fn parse_ok(d: Seq<u8>, p: int) -> bool {
        IA5String::dyn_ok(d, p, 1)
    }

    open spec fn parse_end(d: Seq<u8>, p: int) -> int {
        let p1 = IA5String::dyn_end(d, p, 1);
        if !IA5String::dyn_ok(d, p, 1) {
            p1
        } else {
            p1
        }
    }

    open spec fn parsed_as(d: Seq<u8>, p: int, v: CardReplacementIndex) -> bool {
        IA5String::dyn_as(d, p, 1, v.0)
    }

    open spec fn parse_err(d: Seq<u8>, p: int) -> ParseError {
        if !IA5String::dyn_ok(d, p, 1) {
            IA5String::dyn_err(d, p, 1)
        } else {
            ParseError::InvalidValue
        }
    }

    fn parse(cursor: &mut Cursor) -> (res: Result<CardReplacementIndex, ParseError>) {
        CardReplacementIndex::parse(cursor)
    }
}

/// CardConsecutiveIndex (appendix 2.14): one character.
#[derive(Debug)]
pub struct CardConsecutiveIndex(pub IA5String);

impl CardConsecutiveIndex {
    /// Reads a `CardConsecutiveIndex` at the reader's position.
    pub fn parse(cursor: &mut Cursor) -> (res: Result<CardConsecutiveIndex, ParseError>)
        ensures
            final(cursor).data() == old(cursor).data(),
            old(cursor).pos() <= final(cursor).pos(),
            final(cursor).pos() == CardConsecutiveIndex::parse_end(old(cursor).data(), old(cursor).pos()),
            res is Ok <==> CardConsecutiveIndex::parse_ok(old(cursor).data(), old(cursor).pos()),
            res matches Ok(v) ==> CardConsecutiveIndex::parsed_as(old(cursor).data(), old(cursor).pos(), v),
            res matches Err(e) ==> e == CardConsecutiveIndex::parse_err(old(cursor).data(), old(cursor).pos()),
    {
        let value = IA5String::parse_dyn_size(cursor, 1)?;
        Ok(CardConsecutiveIndex(value))
    }
}

impl Parse for CardConsecutiveIndex {
    open spec fn parse_ok(d: Seq<u8>, p: int) -> bool {
        IA5String::dyn_ok(d, p, 1)
    }

    open spec fn parse_end(d: Seq<u8>, p: int) -> int {
        let p1 = IA5String::dyn_end(d, p, 1);
        if !IA5String::dyn_ok(d, p, 1) {
            p1
        } else {
            p1
        }
    }

    open spec fn parsed_as(d: Seq<u8>, p: int, v: CardConsecutiveIndex) -> bool {
        IA5String::dyn_as(d, p, 1, v.0)
    }

    open spec fn parse_err(d: Seq<u8>, p: int) -> ParseError {
        if !IA5String::dyn_ok(d, p, 1) {
            IA5String::dyn_err(d, p, 1)
        } else {
            ParseError::InvalidValue
        }
    }

    fn parse(cursor: &mut Cursor) -> (res: Result<CardConsecutiveIndex, ParseError>) {
        CardConsecutiveIndex::parse(cursor)
    }
}

/// CardRenewalIndex (appendix 2.30): one character.
#[derive(Debug)]
pub struct CardRenewalIndex(pub IA5String);

impl CardRenewalIndex {
    /// Reads a `CardRenewalIndex` at the reader's position.
    pub fn parse(cursor: &mut Cursor) -> (res: Result<CardRenewalIndex, ParseError>)
        ensures
            final(cursor).data() == old(cursor).data(),
            old(cursor).pos() <= final(cursor).pos(),
            final(cursor).pos() == CardRenewalIndex::parse_end(old(cursor).data(), old(cursor).pos()),
            res is Ok <==> CardRenewalIndex::parse_ok(old(cursor).data(), old(cursor).pos()),
            res matches Ok(v) ==> CardRenewalIndex::parsed_as(old(cursor).data(), old(cursor).pos(), v),
            res matches Err(e) ==> e == CardRenewalIndex::parse_err(old(cursor).data(), old(cursor).pos()),
    {
        let value = IA5String::parse_dyn_size(cursor, 1)?;
        Ok(CardRenewalIndex(value))
    }
}

impl Parse for CardRenewalIndex {
    open spec fn parse_ok(d: Seq<u8>, p: int) -> bool {
        IA5String::dyn_ok(d, p, 1)
    }

    open spec fn parse_end(d: Seq<u8>, p: int) -> int {
        let p1 = IA5String::dyn_end(d, p, 1);
        if !IA5String::dyn_ok(d, p, 1) {
            p1
        } else {
            p1
        }
    }

    open spec fn parsed_as(d: Seq<u8>, p: int, v: CardRenewalIndex) -> bool {
        IA5String::dyn_as(d, p, 1, v.0)
    }

    open spec fn parse_err(d: Seq<u8>, p: int) -> ParseError {
        if !IA5String::dyn_ok(d, p, 1) {
            IA5String::dyn_err(d, p, 1)
        } else {
            ParseError::InvalidValue
        }
    }

    fn parse(cursor: &mut Cursor) -> (res: Result<CardRenewalIndex, ParseError>) {
        CardRenewalIndex::parse(cursor)
    }
}

/// CurrentDateTime (appendix 2.54).
#[derive(Debug)]
pub struct CurrentDateTime(pub TimeReal);

impl CurrentDateTime {
    /// Reads a `CurrentDateTime` at the reader's position.
    pub fn parse(cursor: &mut Cursor) -> (res: Result<CurrentDateTime, ParseError>)
        ensures
            final(cursor).data() == old(cursor).data(),
            old(cursor).pos() <= final(cursor).pos(),
            final(cursor).pos() == CurrentDateTime::parse_end(old(cursor).data(), old(cursor).pos()),
            res is Ok <==> CurrentDateTime::parse_ok(old(cursor).data(), old(cursor).pos()),
            res matches Ok(v) ==> CurrentDateTime::parsed_as(old(cursor).data(), old(cursor).pos(), v),
            res matches Err(e) ==> e == CurrentDateTime::parse_err(old(cursor).data(), old(cursor).pos()),
    {
        let value = TimeReal::parse(cursor)?;
        Ok(CurrentDateTime(value))
    }
}

impl Parse for CurrentDateTime {
    open spec fn parse_ok(d: Seq<u8>, p: int) -> bool {
        TimeReal::parse_ok(d, p)
    }

    open spec fn parse_end(d: Seq<u8>, p: int) -> int {
        let p1 = TimeReal::parse_end(d, p);
        if !TimeReal::parse_ok(d, p) {
            p1
        } else {
            p1
        }
    }

    open spec fn parsed_as(d: Seq<u8>, p: int, v: CurrentDateTime) -> bool {
        TimeReal::parsed_as(d, p, v.0)
    }

    open spec fn parse_err(d: Seq<u8>, p: int) -> ParseError {
        if !TimeReal::parse_ok(d, p) {
            TimeReal::parse_err(d, p)
        } else {
            ParseError::InvalidValue
        }
    }

    fn parse(cursor: &mut Cursor) -> (res: Result<CurrentDateTime, ParseError>) {
        CurrentDateTime::parse(cursor)
    }
}

/// CardApprovalNumber (appendix 2.11): eight characters.
#[derive(Debug)]
pub struct CardApprovalNumber(pub IA5String);

impl CardApprovalNumber {
    /// Reads a `CardApprovalNumber` at the reader's position.
    pub fn parse(cursor: &mut Cursor) -> (res: Result<CardApprovalNumber, ParseError>)
        ensures
            final(cursor).data() == old(cursor).data(),
            old(cursor).pos() <= final(cursor).pos(),
            final(cursor).pos() == CardApprovalNumber::parse_end(old(cursor).data(), old(cursor).pos()),
            res is Ok <==> CardApprovalNumber::parse_ok(old(cursor).data(), old(cursor).pos()),
            res matches Ok(v) ==> CardApprovalNumber::parsed_as(old(cursor).data(), old(cursor).pos(), v),
            res matches Err(e) ==> e == CardApprovalNumber::parse_err(old(cursor).data(), old(cursor).pos()),
    {
        let value = IA5String::parse_dyn_size(cursor, 8)?;
        Ok(CardApprovalNumber(value))
    }
}

impl Parse for CardApprovalNumber {
    open spec fn parse_ok(d: Seq<u8>, p: int) -> bool {
        IA5String::dyn_ok(d, p, 8)
    }

    open spec fn parse_end(d: Seq<u8>, p: int) -> int {
        let p1 = IA5String::dyn_end(d, p, 8);
        if !IA5String::dyn_ok(d, p, 8) {
            p1
        } else {
            p1
        }
    }

    open spec fn parsed_as(d: Seq<u8>, p: int, v: CardApprovalNumber) -> bool {
        IA5String::dyn_as(d, p, 8, v.0)
    }

    open spec fn parse_err(d: Seq<u8>, p: int) -> ParseError {
        if !IA5String::dyn_ok(d, p, 8) {
            IA5String::dyn_err(d, p, 8)
        } else {
            ParseError::InvalidValue
        }
    }

    fn parse(cursor: &mut Cursor) -> (res: Result<CardApprovalNumber, ParseError>) {
        CardApprovalNumber::parse(cursor)
    }
}

/// WVehicleCharacteristicConstant (appendix 2.239): a 16-bit value.
#[derive(Debug)]
pub struct WVehicleCharacteristicConstant(pub u16);

impl WVehicleCharacteristicConstant {
    /// Reads a `WVehicleCharacteristicConstant` at the reader's position.
    pub fn parse(cursor: &mut Cursor) -> (res: Result<WVehicleCharacteristicConstant, ParseError>)
        ensures
            final(cursor).data() == old(cursor).data(),
            old(cursor).pos() <= final(cursor).pos(),
            final(cursor).pos() == WVehicleCharacteristicConstant::parse_end(old(cursor).data(), old(cursor).pos()),
            res is Ok <==> WVehicleCharacteristicConstant::parse_ok(old(cursor).data(), old(cursor).pos()),
            res matches Ok(v) ==> WVehicleCharacteristicConstant::parsed_as(old(cursor).data(), old(cursor).pos(), v),
            res matches Err(e) ==> e == WVehicleCharacteristicConstant::parse_err(old(cursor).data(), old(cursor).pos()),
    {
        let value = u16::parse(cursor)?;
        Ok(WVehicleCharacteristicConstant(value))
    }
}

impl Parse for WVehicleCharacteristicConstant {
    open spec fn parse_ok(d: Seq<u8>, p: int) -> bool {
        u16::parse_ok(d, p)
    }

    open spec fn parse_end(d: Seq<u8>, p: int) -> int {
        let p1 = u16::parse_end(d, p);
        if !u16::parse_ok(d, p) {
            p1
        } else {
            p1
        }
    }

    open spec fn parsed_as(d: Seq<u8>, p: int, v: WVehicleCharacteristicConstant) -> bool {
        u16::parsed_as(d, p, v.0)
    }

    open spec fn parse_err(d: Seq<u8>, p: int) -> ParseError {
        if !u16::parse_ok(d, p) {
            u16::parse_err(d, p)
        } else {
            ParseError::InvalidValue
        }
    }

    fn parse(cursor: &mut Cursor) -> (res: Result<WVehicleCharacteristicConstant, ParseError>) {
        WVehicleCharacteristicConstant::parse(cursor)
    }
}

/// KConstantOfRecordingEquipment (appendix 2.85): a 16-bit value.
#[derive(Debug)]
pub struct KConstantOfRecordingEquipment(pub u16);

impl KConstantOfRecordingEquipment {
    /// Reads a `KConstantOfRecordingEquipment` at the reader's position.
    pub fn parse(cursor: &mut Cursor) -> (res: Result<KConstantOfRecordingEquipment, ParseError>)
        ensures
            final(cursor).data() == old(cursor).data(),
            old(cursor).pos() <= final(cursor).pos(),
            final(cursor).pos() == KConstantOfRecordingEquipment::parse_end(old(cursor).data(), old(cursor).pos()),
            res is Ok <==> KConstantOfRecordingEquipment::parse_ok(old(cursor).data(), old(cursor).pos()),
            res matches Ok(v) ==> KConstantOfRecordingEquipment::parsed_as(old(cursor).data(), old(cursor).pos(), v),
            res matches Err(e) ==> e == KConstantOfRecordingEquipment::parse_err(old(cursor).data(), old(cursor).pos()),
    {
        let value = u16::parse(cursor)?;
        Ok(KConstantOfRecordingEquipment(value))
    }
}

impl Parse for KConstantOfRecordingEquipment {
    open spec fn parse_ok(d: Seq<u8>, p: int) -> bool {
        u16::parse_ok(d, p)
    }

    open spec fn parse_end(d: Seq<u8>, p: int) -> int {
        let p1 = u16::parse_end(d, p);
        if !u16::parse_ok(d, p) {
            p1
        } else {
            p1
        }
    }

    open spec fn parsed_as(d: Seq<u8>, p: int, v: KConstantOfRecordingEquipment) -> bool {
        u16::parsed_as(d, p, v.0)
    }

    open spec fn parse_err(d: Seq<u8>, p: int) -> ParseError {
        if !u16::parse_ok(d, p) {
            u16::parse_err(d, p)
        } else {
            ParseError::InvalidValue
        }
    }

    fn parse(cursor: &mut Cursor) -> (res: Result<KConstantOfRecordingEquipment, ParseError>) {
        KConstantOfRecordingEquipment::parse(cursor)
    }
}

/// LTyreCircumference (appendix 2.91): a 16-bit value.
#[derive(Debug)]
pub struct LTyreCircumference(pub u16);

impl LTyreCircumference {
    /// Reads a `LTyreCircumference` at the reader's position.
    pub fn parse(cursor: &mut Cursor) -> (res: Result<LTyreCircumference, ParseError>)
        ensures
            final(cursor).data() == old(cursor).data(),
            old(cursor).pos() <= final(cursor).pos(),
            final(cursor).pos() == LTyreCircumference::parse_end(old(cursor).data(), old(cursor).pos()),
            res is Ok <==> LTyreCircumference::parse_ok(old(cursor).data(), old(cursor).pos()),
            res matches Ok(v) ==> LTyreCircumference::parsed_as(old(cursor).data(), old(cursor).pos(), v),
            res matches Err(e) ==> e == LTyreCircumference::parse_err(old(cursor).data(), old(cursor).pos()),
    {
        let value = u16::parse(cursor)?;
        Ok(LTyreCircumference(value))
    }
}

impl Parse for LTyreCircumference {
    open spec fn parse_ok(d: Seq<u8>, p: int) -> bool {
        u16::parse_ok(d, p)
    }

    open spec fn parse_end(d: Seq<u8>, p: int) -> int {
        let p1 = u16::parse_end(d, p);
        if !u16::parse_ok(d, p) {
            p1
        } else {
            p1
        }
    }

    open spec fn parsed_as(d: Seq<u8>, p: int, v: LTyreCircumference) -> bool {
        u16::parsed_as(d, p, v.0)
    }

    open spec fn parse_err(d: Seq<u8>, p: int) -> ParseError {
        if !u16::parse_ok(d, p) {
            u16::parse_err(d, p)
        } else {
            ParseError::InvalidValue
        }
    }

    fn parse(cursor: &mut Cursor) -> (res: Result<LTyreCircumference, ParseError>) {
        LTyreCircumference::parse(cursor)
    }
}

/// TyreSize (appendix 2.163): fifteen characters.
#[derive(Debug)]
pub struct TyreSize(pub IA5String);

impl TyreSize {
    /// Reads a `TyreSize` at the reader's position.
    pub fn parse(cursor: &mut Cursor) -> (res: Result<TyreSize, ParseError>)
        ensures
            final(cursor).data() == old(cursor).data(),
            old(cursor).pos() <= final(cursor).pos(),
            final(cursor).pos() == TyreSize::parse_end(old(cursor).data(), old(cursor).pos()),
            res is Ok <==> TyreSize::parse_ok(old(cursor).data(), old(cursor).pos()),
            res matches Ok(v) ==> TyreSize::parsed_as(old(cursor).data(), old(cursor).pos(), v),
            res matches Err(e) ==> e == TyreSize::parse_err(old(cursor).data(), old(cursor).pos()),
    {
        let value = IA5String::parse_dyn_size(cursor, 15)?;
        Ok(TyreSize(value))
    }
}

impl Parse for TyreSize {
    open spec fn parse_ok(d: Seq<u8>, p: int) -> bool {
        IA5String::dyn_ok(d, p, 15)
    }

    open spec fn parse_end(d: Seq<u8>, p: int) -> int {
        let p1 = IA5String::dyn_end(d, p, 15);
        if !IA5String::dyn_ok(d, p, 15) {
            p1
        } else {
            p1
        }
    }

    open spec fn parsed_as(d: Seq<u8>, p: int, v: TyreSize) -> bool {
        IA5String::dyn_as(d, p, 15, v.0)
    }

    open spec fn parse_err(d: Seq<u8>, p: int) -> ParseError {
        if !IA5String::dyn_ok(d, p, 15) {
            IA5String::dyn_err(d, p, 15)
        } else {
            ParseError::InvalidValue
        }
    }

    fn parse(cursor: &mut Cursor) -> (res: Result<TyreSize, ParseError>) {
        TyreSize::parse(cursor)
    }
}

/// Speed (appendix 2.155): km/h.
#[derive(Debug)]
pub struct Speed(pub u8);

impl Speed {
    /// Reads a `Speed` at the reader's position.
    pub fn parse(cursor: &mut Cursor) -> (res: Result<Speed, ParseError>)
        ensures
            final(cursor).data() == old(cursor).data(),
            old(cursor).pos() <= final(cursor).pos(),
            final(cursor).pos() == Speed::parse_end(old(cursor).data(), old(cursor).pos()),
            res is Ok <==> Speed::parse_ok(old(cursor).data(), old(cursor).pos()),
            res matches Ok(v) ==> Speed::parsed_as(old(cursor).data(), old(cursor).pos(), v),
            res matches Err(e) ==> e == Speed::parse_err(old(cursor).data(), old(cursor).pos()),
    {
        let value = u8::parse(cursor)?;
        Ok(Speed(value))
    }
}

impl Parse for Speed {
    open spec fn parse_ok(d: Seq<u8>, p: int) -> bool {
        u8::parse_ok(d, p)
    }

    open spec fn parse_end(d: Seq<u8>, p: int) -> int {
        let p1 = u8::parse_end(d, p);
        if !u8::parse_ok(d, p) {
            p1
        } else {
            p1
        }
    }

    open spec fn parsed_as(d: Seq<u8>, p: int, v: Speed) -> bool {
        u8::parsed_as(d, p, v.0)
    }

    open spec fn parse_err(d: Seq<u8>, p: int) -> ParseError {
        if !u8::parse_ok(d, p) {
            u8::parse_err(d, p)
        } else {
            ParseError::InvalidValue
        }
    }

    fn parse(cursor: &mut Cursor) -> (res: Result<Speed, ParseError>) {
        Speed::parse(cursor)
    }
}

/// SpeedAuthorised (appendix 2.156).
pub type SpeedAuthorised = Speed;

/// SpeedAverage (appendix 2.157).
pub type SpeedAverage = Speed;

/// SpeedMax (appendix 2.158).
pub type SpeedMax = Speed;

/// OverspeedNumber (appendix 2.116).
pub type OverspeedNumber = Speed;

/// VuManufacturerName (appendix 2.240).
pub type VuManufacturerName = Name;

/// VuManufacturerAddress (appendix 2.209).
pub type VuManufacturerAddress = Address;

/// VuSoftInstallationDate (appendix 2.224).
pub type VuSoftInstallationDate = TimeReal;

/// VuManufacturingDate (appendix 2.211).
pub type VuManufacturingDate = TimeReal;

/// SensorPairingDate (appendix 2.146).
pub type SensorPairingDate = TimeReal;

/// VuSoftwareVersion (appendix 2.226): four characters.
#[derive(Debug)]
pub struct VuSoftwareVersion(pub IA5String);

impl VuSoftwareVersion {
    /// Reads a `VuSoftwareVersion` at the reader's position.
    pub fn parse(cursor: &mut Cursor) -> (res: Result<VuSoftwareVersion, ParseError>)
        ensures
            final(cursor).data() == old(cursor).data(),
            old(cursor).pos() <= final(cursor).pos(),
            final(cursor).pos() == VuSoftwareVersion::parse_end(old(cursor).data(), old(cursor).pos()),
            res is Ok <==> VuSoftwareVersion::parse_ok(old(cursor).data(), old(cursor).pos()),
            res matches Ok(v) ==> VuSoftwareVersion::parsed_as(old(cursor).data(), old(cursor).pos(), v),
            res matches Err(e) ==> e == VuSoftwareVersion::parse_err(old(cursor).data(), old(cursor).pos()),
    {
        let value = IA5String::parse_dyn_size(cursor, 4)?;
        Ok(VuSoftwareVersion(value))
    }
}

impl Parse for VuSoftwareVersion {
    open spec fn parse_ok(d: Seq<u8>, p: int) -> bool {
        IA5String::dyn_ok(d, p, 4)
    }

    open spec fn parse_end(d: Seq<u8>, p: int) -> int {
        let p1 = IA5String::dyn_end(d, p, 4);
        if !IA5String::dyn_ok(d, p, 4) {
            p1
        } else {
            p1
        }
    }

    open spec fn parsed_as(d: Seq<u8>, p: int, v: VuSoftwareVersion) -> bool {
        IA5String::dyn_as(d, p, 4, v.0)
    }

    open spec fn parse_err(d: Seq<u8>, p: int) -> ParseError {
        if !IA5String::dyn_ok(d, p, 4) {
            IA5String::dyn_err(d, p, 4)
        } else {
            ParseError::InvalidValue
        }
    }

    fn parse(cursor: &mut Cursor) -> (res: Result<VuSoftwareVersion, ParseError>) {
        VuSoftwareVersion::parse(cursor)
    }
}

/// VuSoftwareIdentification (appendix 2.225).
#[derive(Debug)]
pub struct VuSoftwareIdentification {
    pub vu_software_version: VuSoftwareVersion,
    pub vu_soft_installation_date: VuSoftInstallationDate,
}

impl VuSoftwareIdentification {
    /// Reads a `VuSoftwareIdentification` at the reader's position.
    pub fn parse(cursor: &mut Cursor) -> (res: Result<VuSoftwareIdentification, ParseError>)
        ensures
            final(cursor).data() == old(cursor).data(),
            old(cursor).pos() <= final(cursor).pos(),
            final(cursor).pos() == VuSoftwareIdentification::parse_end(old(cursor).data(), old(cursor).pos()),
            res is Ok <==> VuSoftwareIdentification::parse_ok(old(cursor).data(), old(cursor).pos()),
            res matches Ok(v) ==> VuSoftwareIdentification::parsed_as(old(cursor).data(), old(cursor).pos(), v),
            res matches Err(e) ==> e == VuSoftwareIdentification::parse_err(old(cursor).data(), old(cursor).pos()),
    {
        let vu_software_version = VuSoftwareVersion::parse(cursor)?;
        let vu_soft_installation_date = VuSoftInstallationDate::parse(cursor)?;
        Ok(VuSoftwareIdentification { vu_software_version, vu_soft_installation_date })
    }
}

impl Parse for VuSoftwareIdentification {
    open spec fn parse_ok(d: Seq<u8>, p: int) -> bool {
        let p1 = VuSoftwareVersion::parse_end(d, p);
        VuSoftwareVersion::parse_ok(d, p)
            && VuSoftInstallationDate::parse_ok(d, p1)
    }

    open spec fn parse_end(d: Seq<u8>, p: int) -> int {
        let p1 = VuSoftwareVersion::parse_end(d, p);
        let p2 = VuSoftInstallationDate::parse_end(d, p1);
        if !VuSoftwareVersion::parse_ok(d, p) {
            p1
        } else if !VuSoftInstallationDate::parse_ok(d, p1) {
            p2
        } else {
            p2
        }
    }

    open spec fn parsed_as(d: Seq<u8>, p: int, v: VuSoftwareIdentification) -> bool {
        let p1 = VuSoftwareVersion::parse_end(d, p);
        VuSoftwareVersion::parsed_as(d, p, v.vu_software_version)
            && VuSoftInstallationDate::parsed_as(d, p1, v.vu_soft_installation_date)
    }

    open spec fn parse_err(d: Seq<u8>, p: int) -> ParseError {
        let p1 = VuSoftwareVersion::parse_end(d, p);
        if !VuSoftwareVersion::parse_ok(d, p) {
            VuSoftwareVersion::parse_err(d, p)
        } else if !VuSoftInstallationDate::parse_ok(d, p1) {
            VuSoftInstallationDate::parse_err(d, p1)
        } else {
            ParseError::InvalidValue
        }
    }

    fn parse(cursor: &mut Cursor) -> (res: Result<VuSoftwareIdentification, ParseError>) {
        VuSoftwareIdentification::parse(cursor)
    }
}

/// SimilarEventsNumber (appendix 2.151).
#[derive(Debug)]
pub struct SimilarEventsNumber(pub u8);

impl SimilarEventsNumber {
    /// Reads a `SimilarEventsNumber` at the reader's position.
    pub fn parse(cursor: &mut Cursor) -> (res: Result<SimilarEventsNumber, ParseError>)
        ensures
            final(cursor).data() == old(cursor).data(),
            old(cursor).pos() <= final(cursor).pos(),
            final(cursor).pos() == SimilarEventsNumber::parse_end(old(cursor).data(), old(cursor).pos()),
            res is Ok <==> SimilarEventsNumber::parse_ok(old(cursor).data(), old(cursor).pos()),
            res matches Ok(v) ==> SimilarEventsNumber::parsed_as(old(cursor).data(), old(cursor).pos(), v),
            res matches Err(e) ==> e == SimilarEventsNumber::parse_err(old(cursor).data(), old(cursor).pos()),
    {
        let value = u8::parse(cursor)?;
        Ok(SimilarEventsNumber(value))
    }
}

impl Parse for SimilarEventsNumber {
    open spec fn parse_ok(d: Seq<u8>, p: int) -> bool {
        u8::parse_ok(d, p)
    }

    open spec fn parse_end(d: Seq<u8>, p: int) -> int {
        let p1 = u8::parse_end(d, p);
        if !u8::parse_ok(d, p) {
            p1
        } else {
            p1
        }
    }

    open spec fn parsed_as(d: Seq<u8>, p: int, v: SimilarEventsNumber) -> bool {
        u8::parsed_as(d, p, v.0)
    }

    open spec fn parse_err(d: Seq<u8>, p: int) -> ParseError {
        if !u8::parse_ok(d, p) {
            u8::parse_err(d, p)
        } else {
            ParseError::InvalidValue
        }
    }

    fn parse(cursor: &mut Cursor) -> (res: Result<SimilarEventsNumber, ParseError>) {
        SimilarEventsNumber::parse(cursor)
    }
}

/// EventFaultRecordPurpose (appendix 2.69): why an event or fault was recorded.
#[derive(Debug, Clone, Copy, PartialEq, Eq, Structural)]
pub enum EventFaultRecordPurpose {
    OneOfTenMostRecentOrLast,
    LongestEventLastTenDays,
    OneOfFiveLongestEventsLastYear,
    LastEventLastTenDays,
    MostSeriousEventLastTenDays,
    OneOfFiveMostSeriousEventsLastYear,
    FirstEventAfterLastCalibration,
    ActiveOrOngoing,
    RFU,
    ManufacturerSpecific,
}

impl EventFaultRecordPurpose {
    /// The value that the byte `b` encodes, if any.
    pub open spec fn from_byte(b: u8) -> Option<EventFaultRecordPurpose> {
        if b == 0x00 {
            Some(EventFaultRecordPurpose::OneOfTenMostRecentOrLast)
        } else if b == 0x01 {
            Some(EventFaultRecordPurpose::LongestEventLastTenDays)
        } else if b == 0x02 {
            Some(EventFaultRecordPurpose::OneOfFiveLongestEventsLastYear)
        } else if b == 0x03 {
            Some(EventFaultRecordPurpose::LastEventLastTenDays)
        } else if b == 0x04 {
            Some(EventFaultRecordPurpose::MostSeriousEventLastTenDays)
        } else if b == 0x05 {
            Some(EventFaultRecordPurpose::OneOfFiveMostSeriousEventsLastYear)
        } else if b == 0x06 {
            Some(EventFaultRecordPurpose::FirstEventAfterLastCalibration)
        } else if b == 0x07 {
            Some(EventFaultRecordPurpose::ActiveOrOngoing)
        } else if 0x08 <= b && b <= 0x7F {
            Some(EventFaultRecordPurpose::RFU)
        } else {
            Some(EventFaultRecordPurpose::ManufacturerSpecific)
        }
    }

    /// Decodes one byte.
    pub fn decode(b: u8) -> (r: Option<EventFaultRecordPurpose>)
        ensures
            r == EventFaultRecordPurpose::from_byte(b),
    {
        if b == 0x00 {
            Some(EventFaultRecordPurpose::OneOfTenMostRecentOrLast)
        } else if b == 0x01 {
            Some(EventFaultRecordPurpose::LongestEventLastTenDays)
        } else if b == 0x02 {
            Some(EventFaultRecordPurpose::OneOfFiveLongestEventsLastYear)
        } else if b == 0x03 {
            Some(EventFaultRecordPurpose::LastEventLastTenDays)
        } else if b == 0x04 {
            Some(EventFaultRecordPurpose::MostSeriousEventLastTenDays)
        } else if b == 0x05 {
            Some(EventFaultRecordPurpose::OneOfFiveMostSeriousEventsLastYear)
        } else if b == 0x06 {
            Some(EventFaultRecordPurpose::FirstEventAfterLastCalibration)
        } else if b == 0x07 {
            Some(EventFaultRecordPurpose::ActiveOrOngoing)
        } else if 0x08 <= b && b <= 0x7F {
            Some(EventFaultRecordPurpose::RFU)
        } else {
            Some(EventFaultRecordPurpose::ManufacturerSpecific)
        }
    }
}

impl EventFaultRecordPurpose {
    /// Reads a `EventFaultRecordPurpose` at the reader's position.
    pub fn parse(cursor: &mut Cursor) -> (res: Result<EventFaultRecordPurpose, ParseError>)
        ensures
            final(cursor).data() == old(cursor).data(),
            old(cursor).pos() <= final(cursor).pos(),
            final(cursor).pos() == EventFaultRecordPurpose::parse_end(old(cursor).data(), old(cursor).pos()),
            res is Ok <==> EventFaultRecordPurpose::parse_ok(old(cursor).data(), old(cursor).pos()),
            res matches Ok(v) ==> EventFaultRecordPurpose::parsed_as(old(cursor).data(), old(cursor).pos(), v),
            res matches Err(e) ==> e == EventFaultRecordPurpose::parse_err(old(cursor).data(), old(cursor).pos()),
    {
        let b = cursor.read_u8()?;
        match EventFaultRecordPurpose::decode(b) {
            Some(v) => Ok(v),
            None => Err(ParseError::InvalidValue),
        }
    }
}

impl Parse for EventFaultRecordPurpose {
    open spec fn parse_ok(d: Seq<u8>, p: int) -> bool {
        bytes_ok(d, p, 1) && EventFaultRecordPurpose::from_byte(d[p]) is Some
    }

    open spec fn parse_end(d: Seq<u8>, p: int) -> int {
        bytes_end(d, p, 1)
    }

    open spec fn parse_err(d: Seq<u8>, p: int) -> ParseError {
        if !bytes_ok(d, p, 1) {
            ParseError::UnexpectedEnd
        } else {
            ParseError::InvalidValue
        }
    }

    open spec fn parsed_as(d: Seq<u8>, p: int, v: EventFaultRecordPurpose) -> bool {
        EventFaultRecordPurpose::from_byte(d[p]) == Some(v)
    }

    fn parse(cursor: &mut Cursor) -> (res: Result<EventFaultRecordPurpose, ParseError>) {
        EventFaultRecordPurpose::parse(cursor)
    }
}

/// VehicleIdentificationNumber (appendix 2.165): seventeen characters.
#[derive(Debug)]
pub struct VehicleIdentificationNumber(pub IA5String);

impl VehicleIdentificationNumber {
    /// Reads a `VehicleIdentificationNumber` at the reader's position.
    pub fn parse(cursor: &mut Cursor) -> (res: Result<VehicleIdentificationNumber, ParseError>)
        ensures
            final(cursor).data() == old(cursor).data(),
            old(cursor).pos() <= final(cursor).pos(),
            final(cursor).pos() == VehicleIdentificationNumber::parse_end(old(cursor).data(), old(cursor).pos()),
            res is Ok <==> VehicleIdentificationNumber::parse_ok(old(cursor).data(), old(cursor).pos()),
            res matches Ok(v) ==> VehicleIdentificationNumber::parsed_as(old(cursor).data(), old(cursor).pos(), v),
            res matches Err(e) ==> e == VehicleIdentificationNumber::parse_err(old(cursor).data(), old(cursor).pos()),
    {
        let value = IA5String::parse_dyn_size(cursor, 17)?;
        Ok(VehicleIdentificationNumber(value))
    }
}

impl Parse for VehicleIdentificationNumber {
    open spec fn parse_ok(d: Seq<u8>, p: int) -> bool {
        IA5String::dyn_ok(d, p, 17)
    }

    open spec fn parse_end(d: Seq<u8>, p: int) -> int {
        let p1 = IA5String::dyn_end(d, p, 17);
        if !IA5String::dyn_ok(d, p, 17) {
            p1
        } else {
            p1
        }
    }

    open spec fn parsed_as(d: Seq<u8>, p: int, v: VehicleIdentificationNumber) -> bool {
        IA5String::dyn_as(d, p, 17, v.0)
    }

    open spec fn parse_err(d: Seq<u8>, p: int) -> ParseError {
        if !IA5String::dyn_ok(d, p, 17) {
            IA5String::dyn_err(d, p, 17)
        } else {
            ParseError::InvalidValue
        }
    }

    fn parse(cursor: &mut Cursor) -> (res: Result<VehicleIdentificationNumber, ParseError>) {
        VehicleIdentificationNumber::parse(cursor)
    }
}

/// HolderName (appendix 2.83).
#[derive(Debug)]
pub struct HolderName {
    pub holder_surname: Name,
    pub holder_first_names: Name,
}

impl HolderName {
    /// Reads a `HolderName` at the reader's position.
    pub fn parse(cursor: &mut Cursor) -> (res: Result<HolderName, ParseError>)
        ensures
            final(cursor).data() == old(cursor).data(),
            old(cursor).pos() <= final(cursor).pos(),
            final(cursor).pos() == HolderName::parse_end(old(cursor).data(), old(cursor).pos()),
            res is Ok <==> HolderName::parse_ok(old(cursor).data(), old(cursor).pos()),
            res matches Ok(v) ==> HolderName::parsed_as(old(cursor).data(), old(cursor).pos(), v),
            res matches Err(e) ==> e == HolderName::parse_err(old(cursor).data(), old(cursor).pos()),
    {
        let holder_surname = Name::parse(cursor)?;
        let holder_first_names = Name::parse(cursor)?;
        Ok(HolderName { holder_surname, holder_first_names })
    }
}

impl Parse for HolderName {
    open spec fn parse_ok(d: Seq<u8>, p: int) -> bool {
        let p1 = Name::parse_end(d, p);
        Name::parse_ok(d, p)
            && Name::parse_ok(d, p1)
    }

    open spec fn parse_end(d: Seq<u8>, p: int) -> int {
        let p1 = Name::parse_end(d, p);
        let p2 = Name::parse_end(d, p1);
        if !Name::parse_ok(d, p) {
            p1
        } else if !Name::parse_ok(d, p1) {
            p2
        } else {
            p2
        }
    }

    open spec fn parsed_as(d: Seq<u8>, p: int, v: HolderName) -> bool {
        let p1 = Name::parse_end(d, p);
        Name::parsed_as(d, p, v.holder_surname)
            && Name::parsed_as(d, p1, v.holder_first_names)
    }

    open spec fn parse_err(d: Seq<u8>, p: int) -> ParseError {
        let p1 = Name::parse_end(d, p);
        if !Name::parse_ok(d, p) {
            Name::parse_err(d, p)
        } else if !Name::parse_ok(d, p1) {
            Name::parse_err(d, p1)
        } else {
            ParseError::InvalidValue
        }
    }

    fn parse(cursor: &mut Cursor) -> (res: Result<HolderName, ParseError>) {
        HolderName::parse(cursor)
    }
}

/// CardSlotNumber (appendix 2.33).
#[derive(Debug, Clone, Copy, PartialEq, Eq, Structural)]
pub enum CardSlotNumber {
    DriverSlot,
    CoDriverSlot,
}

impl CardSlotNumber {
    /// The value that the byte `b` encodes, if any.
    pub open spec fn from_byte(b: u8) -> Option<CardSlotNumber> {
        if b == 0x00 {
            Some(CardSlotNumber::DriverSlot)
        } else if b == 0x01 {
            Some(CardSlotNumber::CoDriverSlot)
        } else {
            None
        }
    }

    /// Decodes one byte.
    pub fn decode(b: u8) -> (r: Option<CardSlotNumber>)
        ensures
            r == CardSlotNumber::from_byte(b),
    {
        if b == 0x00 {
            Some(CardSlotNumber::DriverSlot)
        } else if b == 0x01 {
            Some(CardSlotNumber::CoDriverSlot)
        } else {
            None
        }
    }
}

impl CardSlotNumber {
    /// Reads a `CardSlotNumber` at the reader's position.
    pub fn parse(cursor: &mut Cursor) -> (res: Result<CardSlotNumber, ParseError>)
        ensures
            final(cursor).data() == old(cursor).data(),
            old(cursor).pos() <= final(cursor).pos(),
            final(cursor).pos() == CardSlotNumber::parse_end(old(cursor).data(), old(cursor).pos()),
            res is Ok <==> CardSlotNumber::parse_ok(old(cursor).data(), old(cursor).pos()),
            res matches Ok(v) ==> CardSlotNumber::parsed_as(old(cursor).data(), old(cursor).pos(), v),
            res matches Err(e) ==> e == CardSlotNumber::parse_err(old(cursor).data(), old(cursor).pos()),
    {
        let b = cursor.read_u8()?;
        match CardSlotNumber::decode(b) {
            Some(v) => Ok(v),
            None => Err(ParseError::InvalidValue),
        }
    }
}

impl Parse for CardSlotNumber {
    open spec fn parse_ok(d: Seq<u8>, p: int) -> bool {
        bytes_ok(d, p, 1) && CardSlotNumber::from_byte(d[p]) is Some
    }

    open spec fn parse_end(d: Seq<u8>, p: int) -> int {
        bytes_end(d, p, 1)
    }

    open spec fn parse_err(d: Seq<u8>, p: int) -> ParseError {
        if !bytes_ok(d, p, 1) {
            ParseError::UnexpectedEnd
        } else {
            ParseError::InvalidValue
        }
    }

    open spec fn parsed_as(d: Seq<u8>, p: int, v: CardSlotNumber) -> bool {
        CardSlotNumber::from_byte(d[p]) == Some(v)
    }

    fn parse(cursor: &mut Cursor) -> (res: Result<CardSlotNumber, ParseError>) {
        CardSlotNumber::parse(cursor)
    }
}

/// VehicleRegistrationIdentification (appendix 2.166).
#[derive(Debug)]
pub struct VehicleRegistrationIdentification {
    pub vehicle_registration_nation: external::NationNumeric,
    pub vehicle_registration_number: VehicleRegistrationNumber,
}

impl VehicleRegistrationIdentification {
    /// Reads a `VehicleRegistrationIdentification` at the reader's position.
    pub fn parse(cursor: &mut Cursor) -> (res: Result<VehicleRegistrationIdentification, ParseError>)
        ensures
            final(cursor).data() == old(cursor).data(),
            old(cursor).pos() <= final(cursor).pos(),
            final(cursor).pos() == VehicleRegistrationIdentification::parse_end(old(cursor).data(), old(cursor).pos()),
            res is Ok <==> VehicleRegistrationIdentification::parse_ok(old(cursor).data(), old(cursor).pos()),
            res matches Ok(v) ==> VehicleRegistrationIdentification::parsed_as(old(cursor).data(), old(cursor).pos(), v),
            res matches Err(e) ==> e == VehicleRegistrationIdentification::parse_err(old(cursor).data(), old(cursor).pos()),
    {
        let vehicle_registration_nation = external::NationNumeric::parse(cursor)?;
        let vehicle_registration_number = VehicleRegistrationNumber::parse(cursor)?;
        Ok(VehicleRegistrationIdentification { vehicle_registration_nation, vehicle_registration_number })
    }
}

impl Parse for VehicleRegistrationIdentification {
    open spec fn parse_ok(d: Seq<u8>, p: int) -> bool {
        let p1 = external::NationNumeric::parse_end(d, p);
        external::NationNumeric::parse_ok(d, p)
            && VehicleRegistrationNumber::parse_ok(d, p1)
    }

    open spec fn parse_end(d: Seq<u8>, p: int) -> int {
        let p1 = external::NationNumeric::parse_end(d, p);
        let p2 = VehicleRegistrationNumber::parse_end(d, p1);
        if !external::NationNumeric::parse_ok(d, p) {
            p1
        } else if !VehicleRegistrationNumber::parse_ok(d, p1) {
            p2
        } else {
            p2
        }
    }

    open spec fn parsed_as(d: Seq<u8>, p: int, v: VehicleRegistrationIdentification) -> bool {
        let p1 = external::NationNumeric::parse_end(d, p);
        external::NationNumeric::parsed_as(d, p, v.vehicle_registration_nation)
            && VehicleRegistrationNumber::parsed_as(d, p1, v.vehicle_registration_number)
    }

    open spec fn parse_err(d: Seq<u8>, p: int) -> ParseError {
        let p1 = external::NationNumeric::parse_end(d, p);
        if !external::NationNumeric::parse_ok(d, p) {
            external::NationNumeric::parse_err(d, p)
        } else if !VehicleRegistrationNumber::parse_ok(d, p1) {
            VehicleRegistrationNumber::parse_err(d, p1)
        } else {
            ParseError::InvalidValue
        }
    }

    fn parse(cursor: &mut Cursor) -> (res: Result<VehicleRegistrationIdentification, ParseError>) {
        VehicleRegistrationIdentification::parse(cursor)
    }
}

/// ManualInputFlag (appendix 2.93).
#[derive(Debug, Clone, Copy, PartialEq, Eq, Structural)]
pub enum ManualInputFlag {
    NoEntry,
    ManualEntries,
}

impl ManualInputFlag {
    /// The value that the byte `b` encodes, if any.
    pub open spec fn from_byte(b: u8) -> Option<ManualInputFlag> {
        if b == 0x00 {
            Some(ManualInputFlag::NoEntry)
        } else if b == 0x01 {
            Some(ManualInputFlag::ManualEntries)
        } else {
            None
        }
    }

    /// Decodes one byte.
    pub fn decode(b: u8) -> (r: Option<ManualInputFlag>)
        ensures
            r == ManualInputFlag::from_byte(b),
    {
        if b == 0x00 {
            Some(ManualInputFlag::NoEntry)
        } else if b == 0x01 {
            Some(ManualInputFlag::ManualEntries)
        } else {
            None
        }
    }
}

impl ManualInputFlag {
    /// Reads a `ManualInputFlag` at the reader's position.
    pub fn parse(cursor: &mut Cursor) -> (res: Result<ManualInputFlag, ParseError>)
        ensures
            final(cursor).data() == old(cursor).data(),
            old(cursor).pos() <= final(cursor).pos(),
            final(cursor).pos() == ManualInputFlag::parse_end(old(cursor).data(), old(cursor).pos()),
            res is Ok <==> ManualInputFlag::parse_ok(old(cursor).data(), old(cursor).pos()),
            res matches Ok(v) ==> ManualInputFlag::parsed_as(old(cursor).data(), old(cursor).pos(), v),
            res matches Err(e) ==> e == ManualInputFlag::parse_err(old(cursor).data(), old(cursor).pos()),
    {
        let b = cursor.read_u8()?;
        match ManualInputFlag::decode(b) {
            Some(v) => Ok(v),
            None => Err(ParseError::InvalidValue),
        }
    }
}

impl Parse for ManualInputFlag {
    open spec fn parse_ok(d: Seq<u8>, p: int) -> bool {
        bytes_ok(d, p, 1) && ManualInputFlag::from_byte(d[p]) is Some
    }

    open spec fn parse_end(d: Seq<u8>, p: int) -> int {
        bytes_end(d, p, 1)
    }

    open spec fn parse_err(d: Seq<u8>, p: int) -> ParseError {
        if !bytes_ok(d, p, 1) {
            ParseError::UnexpectedEnd
        } else {
            ParseError::InvalidValue
        }
    }

    open spec fn parsed_as(d: Seq<u8>, p: int, v: ManualInputFlag) -> bool {
        ManualInputFlag::from_byte(d[p]) == Some(v)
    }

    fn parse(cursor: &mut Cursor) -> (res: Result<ManualInputFlag, ParseError>) {
        ManualInputFlag::parse(cursor)
    }
}

/// CardChipIdentification (appendix 2.13): the chip number and signature, four bytes each.
#[derive(Debug)]
pub struct CardChipIdentification {
    pub card_chip_identification_number: Vec<u8>,
    pub card_chip_identification_signature: Vec<u8>,
}

impl CardChipIdentification {
    /// Reads a `CardChipIdentification` at the reader's position.
    pub fn parse(cursor: &mut Cursor) -> (res: Result<CardChipIdentification, ParseError>)
        ensures
            final(cursor).data() == old(cursor).data(),
            old(cursor).pos() <= final(cursor).pos(),
            final(cursor).pos() == CardChipIdentification::parse_end(old(cursor).data(), old(cursor).pos()),
            res is Ok <==> CardChipIdentification::parse_ok(old(cursor).data(), old(cursor).pos()),
            res matches Ok(v) ==> CardChipIdentification::parsed_as(old(cursor).data(), old(cursor).pos(), v),
            res matches Err(e) ==> e == CardChipIdentification::parse_err(old(cursor).data(), old(cursor).pos()),
    {
        let card_chip_identification_number = cursor.read_bytes(4)?;
        let card_chip_identification_signature = cursor.read_bytes(4)?;
        Ok(CardChipIdentification { card_chip_identification_number, card_chip_identification_signature })
    }
}

impl Parse for CardChipIdentification {
    open spec fn parse_ok(d: Seq<u8>, p: int) -> bool {
        let p1 = bytes_end(d, p, 4);
        bytes_ok(d, p, 4)
            && bytes_ok(d, p1, 4)
    }

    open spec fn parse_end(d: Seq<u8>, p: int) -> int {
        let p1 = bytes_end(d, p, 4);
        let p2 = bytes_end(d, p1, 4);
        if !bytes_ok(d, p, 4) {
            p1
        } else if !bytes_ok(d, p1, 4) {
            p2
        } else {
            p2
        }
    }

    open spec fn parsed_as(d: Seq<u8>, p: int, v: CardChipIdentification) -> bool {
        let p1 = bytes_end(d, p, 4);
        v.card_chip_identification_number@ == d.subrange(p, p + 4)
            && v.card_chip_identification_signature@ == d.subrange(p1, p1 + 4)
    }

    open spec fn parse_err(d: Seq<u8>, p: int) -> ParseError {
        let p1 = bytes_end(d, p, 4);
        if !bytes_ok(d, p, 4) {
            ParseError::UnexpectedEnd
        } else if !bytes_ok(d, p1, 4) {
            ParseError::UnexpectedEnd
        } else {
            ParseError::InvalidValue
        }
    }

    fn parse(cursor: &mut Cursor) -> (res: Result<CardChipIdentification, ParseError>) {
        CardChipIdentification::parse(cursor)
    }
}

/// Datef (appendix 2.57): a date as BCD digits yyyymmdd.
#[derive(Debug)]
pub struct Datef {
    pub year: u16,
    pub month: u8,
    pub day: u8,
}

impl Datef {
    /// Reads a `Datef` at the reader's position.
    pub fn parse(cursor: &mut Cursor) -> (res: Result<Datef, ParseError>)
        ensures
            final(cursor).data() == old(cursor).data(),
            old(cursor).pos() <= final(cursor).pos(),
            final(cursor).pos() == Datef::parse_end(old(cursor).data(), old(cursor).pos()),
            res is Ok <==> Datef::parse_ok(old(cursor).data(), old(cursor).pos()),
            res matches Ok(v) ==> Datef::parsed_as(old(cursor).data(), old(cursor).pos(), v),
            res matches Err(e) ==> e == Datef::parse_err(old(cursor).data(), old(cursor).pos()),
    {
        let year = read_bcd_number(cursor, 2)? as u16;
        let month = read_bcd_number(cursor, 1)? as u8;
        let day = read_bcd_number(cursor, 1)? as u8;
        Ok(Datef { year, month, day })
    }
}

impl Parse for Datef {
    open spec fn parse_ok(d: Seq<u8>, p: int) -> bool {
        let p1 = bytes_end(d, p, 2);
        let p2 = bytes_end(d, p1, 1);
        bytes_ok(d, p, 2) && bcd_digits_ok(d.subrange(p, p + 2))
            && bytes_ok(d, p1, 1) && bcd_digits_ok(d.subrange(p1, p1 + 1))
            && bytes_ok(d, p2, 1) && bcd_digits_ok(d.subrange(p2, p2 + 1))
    }

    open spec fn parse_end(d: Seq<u8>, p: int) -> int {
        let p1 = bytes_end(d, p, 2);
        let p2 = bytes_end(d, p1, 1);
        let p3 = bytes_end(d, p2, 1);
        if !(bytes_ok(d, p, 2) && bcd_digits_ok(d.subrange(p, p + 2))) {
            p1
        } else if !(bytes_ok(d, p1, 1) && bcd_digits_ok(d.subrange(p1, p1 + 1))) {
            p2
        } else if !(bytes_ok(d, p2, 1) && bcd_digits_ok(d.subrange(p2, p2 + 1))) {
            p3
        } else {
            p3
        }
    }

    open spec fn parsed_as(d: Seq<u8>, p: int, v: Datef) -> bool {
        let p1 = bytes_end(d, p, 2);
        let p2 = bytes_end(d, p1, 1);
        v.year == bcd_value(d.subrange(p, p + 2))
            && v.month == bcd_value(d.subrange(p1, p1 + 1))
            && v.day == bcd_value(d.subrange(p2, p2 + 1))
    }

    open spec fn parse_err(d: Seq<u8>, p: int) -> ParseError {
        let p1 = bytes_end(d, p, 2);
        let p2 = bytes_end(d, p1, 1);
        if !(bytes_ok(d, p, 2) && bcd_digits_ok(d.subrange(p, p + 2))) {
            (if !bytes_ok(d, p, 2) { ParseError::UnexpectedEnd } else { ParseError::InvalidValue })
        } else if !(bytes_ok(d, p1, 1) && bcd_digits_ok(d.subrange(p1, p1 + 1))) {
            (if !bytes_ok(d, p1, 1) { ParseError::UnexpectedEnd } else { ParseError::InvalidValue })
        } else if !(bytes_ok(d, p2, 1) && bcd_digits_ok(d.subrange(p2, p2 + 1))) {
            (if !bytes_ok(d, p2, 1) { ParseError::UnexpectedEnd } else { ParseError::InvalidValue })
        } else {
            ParseError::InvalidValue
        }
    }

    fn parse(cursor: &mut Cursor) -> (res: Result<Datef, ParseError>) {
        Datef::parse(cursor)
    }
}

/// Language (appendix 2.88): two characters.
#[derive(Debug)]
pub struct Language(pub IA5String);

impl Language {
    /// Reads a `Language` at the reader's position.
    pub fn parse(cursor: &mut Cursor) -> (res: Result<Language, ParseError>)
        ensures
            final(cursor).data() == old(cursor).data(),
            old(cursor).pos() <= final(cursor).pos(),
            final(cursor).pos() == Language::parse_end(old(cursor).data(), old(cursor).pos()),
            res is Ok <==> Language::parse_ok(old(cursor).data(), old(cursor).pos()),
            res matches Ok(v) ==> Language::parsed_as(old(cursor).data(), old(cursor).pos(), v),
            res matches Err(e) ==> e == Language::parse_err(old(cursor).data(), old(cursor).pos()),
    {
        let value = IA5String::parse_dyn_size(cursor, 2)?;
        Ok(Language(value))
    }
}

impl Parse for Language {
    open spec fn parse_ok(d: Seq<u8>, p: int) -> bool {
        IA5String::dyn_ok(d, p, 2)
    }

    open spec fn parse_end(d: Seq<u8>, p: int) -> int {
        let p1 = IA5String::dyn_end(d, p, 2);
        if !IA5String::dyn_ok(d, p, 2) {
            p1
        } else {
            p1
        }
    }

    open spec fn parsed_as(d: Seq<u8>, p: int, v: Language) -> bool {
        IA5String::dyn_as(d, p, 2, v.0)
    }

    open spec fn parse_err(d: Seq<u8>, p: int) -> ParseError {
        if !IA5String::dyn_ok(d, p, 2) {
            IA5String::dyn_err(d, p, 2)
        } else {
            ParseError::InvalidValue
        }
    }

    fn parse(cursor: &mut Cursor) -> (res: Result<Language, ParseError>) {
        Language::parse(cursor)
    }
}

/// CardIdentification (appendix 2.24); the card number is read as a driver card number.
#[derive(Debug)]
pub struct CardIdentification {
    pub card_issuing_member_state: external::NationNumeric,
    pub card_number: CardNumber,
    pub card_issuing_authority_name: Name,
    pub card_issue_date: TimeReal,
    pub card_validity_begin: TimeReal,
    pub card_expiry_date: TimeReal,
}

impl CardIdentification {
    /// Reads a `CardIdentification` at the reader's position.
    pub fn parse(cursor: &mut Cursor) -> (res: Result<CardIdentification, ParseError>)
        ensures
            final(cursor).data() == old(cursor).data(),
            old(cursor).pos() <= final(cursor).pos(),
            final(cursor).pos() == CardIdentification::parse_end(old(cursor).data(), old(cursor).pos()),
            res is Ok <==> CardIdentification::parse_ok(old(cursor).data(), old(cursor).pos()),
            res matches Ok(v) ==> CardIdentification::parsed_as(old(cursor).data(), old(cursor).pos(), v),
            res matches Err(e) ==> e == CardIdentification::parse_err(old(cursor).data(), old(cursor).pos()),
    {
        let card_issuing_member_state = external::NationNumeric::parse(cursor)?;
        let card_number = CardNumber::parse_driver(cursor)?;
        let card_issuing_authority_name = Name::parse(cursor)?;
        let card_issue_date = TimeReal::parse(cursor)?;
        let card_validity_begin = TimeReal::parse(cursor)?;
        let card_expiry_date = TimeReal::parse(cursor)?;
        Ok(CardIdentification { card_issuing_member_state, card_number, card_issuing_authority_name, card_issue_date, card_validity_begin, card_expiry_date })
    }
}

impl Parse for CardIdentification {
    open spec fn parse_ok(d: Seq<u8>, p: int) -> bool {
        let p1 = external::NationNumeric::parse_end(d, p);
        let p2 = bytes_end(d, p1, 16);
        let p3 = Name::parse_end(d, p2);
        let p4 = TimeReal::parse_end(d, p3);
        let p5 = TimeReal::parse_end(d, p4);
        external::NationNumeric::parse_ok(d, p)
            && bytes_ok(d, p1, 16)
            && Name::parse_ok(d, p2)
            && TimeReal::parse_ok(d, p3)
            && TimeReal::parse_ok(d, p4)
            && TimeReal::parse_ok(d, p5)
    }

    open spec fn parse_end(d: Seq<u8>, p: int) -> int {
        let p1 = external::NationNumeric::parse_end(d, p);
        let p2 = bytes_end(d, p1, 16);
        let p3 = Name::parse_end(d, p2);
        let p4 = TimeReal::parse_end(d, p3);
        let p5 = TimeReal::parse_end(d, p4);
        let p6 = TimeReal::parse_end(d, p5);
        if !external::NationNumeric::parse_ok(d, p) {
            p1
        } else if !bytes_ok(d, p1, 16) {
            p2
        } else if !Name::parse_ok(d, p2) {
            p3
        } else if !TimeReal::parse_ok(d, p3) {
            p4
        } else if !TimeReal::parse_ok(d, p4) {
            p5
        } else if !TimeReal::parse_ok(d, p5) {
            p6
        } else {
            p6
        }
    }

    open spec fn parsed_as(d: Seq<u8>, p: int, v: CardIdentification) -> bool {
        let p1 = external::NationNumeric::parse_end(d, p);
        let p2 = bytes_end(d, p1, 16);
        let p3 = Name::parse_end(d, p2);
        let p4 = TimeReal::parse_end(d, p3);
        let p5 = TimeReal::parse_end(d, p4);
        external::NationNumeric::parsed_as(d, p, v.card_issuing_member_state)
            && CardNumber::driver_as(d, p1, v.card_number)
            && Name::parsed_as(d, p2, v.card_issuing_authority_name)
            && TimeReal::parsed_as(d, p3, v.card_issue_date)
            && TimeReal::parsed_as(d, p4, v.card_validity_begin)
            && TimeReal::parsed_as(d, p5, v.card_expiry_date)
    }

    open spec fn parse_err(d: Seq<u8>, p: int) -> ParseError {
        let p1 = external::NationNumeric::parse_end(d, p);
        let p2 = bytes_end(d, p1, 16);
        let p3 = Name::parse_end(d, p2);
        let p4 = TimeReal::parse_end(d, p3);
        let p5 = TimeReal::parse_end(d, p4);
        if !external::NationNumeric::parse_ok(d, p) {
            external::NationNumeric::parse_err(d, p)
        } else if !bytes_ok(d, p1, 16) {
            ParseError::UnexpectedEnd
        } else if !Name::parse_ok(d, p2) {
            Name::parse_err(d, p2)
        } else if !TimeReal::parse_ok(d, p3) {
            TimeReal::parse_err(d, p3)
        } else if !TimeReal::parse_ok(d, p4) {
            TimeReal::parse_err(d, p4)
        } else if !TimeReal::parse_ok(d, p5) {
            TimeReal::parse_err(d, p5)
        } else {
            ParseError::InvalidValue
        }
    }

    fn parse(cursor: &mut Cursor) -> (res: Result<CardIdentification, ParseError>) {
        CardIdentification::parse(cursor)
    }
}

/// DriverCardHolderIdentification (appendix 2.62).
#[derive(Debug)]
pub struct DriverCardHolderIdentification {
    pub card_holder_number: HolderName,
    pub card_holder_birth_date: Datef,
    pub card_holder_preferred_language: Language,
}

impl DriverCardHolderIdentification {
    /// Reads a `DriverCardHolderIdentification` at the reader's position.
    pub fn parse(cursor: &mut Cursor) -> (res: Result<DriverCardHolderIdentification, ParseError>)
        ensures
            final(cursor).data() == old(cursor).data(),
            old(cursor).pos() <= final(cursor).pos(),
            final(cursor).pos() == DriverCardHolderIdentification::parse_end(old(cursor).data(), old(cursor).pos()),
            res is Ok <==> DriverCardHolderIdentification::parse_ok(old(cursor).data(), old(cursor).pos()),
            res matches Ok(v) ==> DriverCardHolderIdentification::parsed_as(old(cursor).data(), old(cursor).pos(), v),
            res matches Err(e) ==> e == DriverCardHolderIdentification::parse_err(old(cursor).data(), old(cursor).pos()),
    {
        let card_holder_number = HolderName::parse(cursor)?;
        let card_holder_birth_date = Datef::parse(cursor)?;
        let card_holder_preferred_language = Language::parse(cursor)?;
        Ok(DriverCardHolderIdentification { card_holder_number, card_holder_birth_date, card_holder_preferred_language })
    }
}

impl Parse for DriverCardHolderIdentification {
    open spec fn parse_ok(d: Seq<u8>, p: int) -> bool {
        let p1 = HolderName::parse_end(d, p);
        let p2 = Datef::parse_end(d, p1);
        HolderName::parse_ok(d, p)
            && Datef::parse_ok(d, p1)
            && Language::parse_ok(d, p2)
    }

    open spec fn parse_end(d: Seq<u8>, p: int) -> int {
        let p1 = HolderName::parse_end(d, p);
        let p2 = Datef::parse_end(d, p1);
        let p3 = Language::parse_end(d, p2);
        if !HolderName::parse_ok(d, p) {
            p1
        } else if !Datef::parse_ok(d, p1) {
            p2
        } else if !Language::parse_ok(d, p2) {
            p3
        } else {
            p3
        }
    }

    open spec fn parsed_as(d: Seq<u8>, p: int, v: DriverCardHolderIdentification) -> bool {
        let p1 = HolderName::parse_end(d, p);
        let p2 = Datef::parse_end(d, p1);
        HolderName::parsed_as(d, p, v.card_holder_number)
            && Datef::parsed_as(d, p1, v.card_holder_birth_date)
            && Language::parsed_as(d, p2, v.card_holder_preferred_language)
    }

    open spec fn parse_err(d: Seq<u8>, p: int) -> ParseError {
        let p1 = HolderName::parse_end(d, p);
        let p2 = Datef::parse_end(d, p1);
        if !HolderName::parse_ok(d, p) {
            HolderName::parse_err(d, p)
        } else if !Datef::parse_ok(d, p1) {
            Datef::parse_err(d, p1)
        } else if !Language::parse_ok(d, p2) {
            Language::parse_err(d, p2)
        } else {
            ParseError::InvalidValue
        }
    }

    fn parse(cursor: &mut Cursor) -> (res: Result<DriverCardHolderIdentification, ParseError>) {
        DriverCardHolderIdentification::parse(cursor)
    }
}

/// The Identification file of a driver card.
#[derive(Debug)]
pub struct Identification {
    pub card_identification: CardIdentification,
    pub driver_card_holder_identification: DriverCardHolderIdentification,
}

impl Identification {
    /// Reads a `Identification` at the reader's position.
    pub fn parse(cursor: &mut Cursor) -> (res: Result<Identification, ParseError>)
        ensures
            final(cursor).data() == old(cursor).data(),
            old(cursor).pos() <= final(cursor).pos(),
            final(cursor).pos() == Identification::parse_end(old(cursor).data(), old(cursor).pos()),
            res is Ok <==> Identification::parse_ok(old(cursor).data(), old(cursor).pos()),
            res matches Ok(v) ==> Identification::parsed_as(old(cursor).data(), old(cursor).pos(), v),
            res matches Err(e) ==> e == Identification::parse_err(old(cursor).data(), old(cursor).pos()),
    {
        let card_identification = CardIdentification::parse(cursor)?;
        let driver_card_holder_identification = DriverCardHolderIdentification::parse(cursor)?;
        Ok(Identification { card_identification, driver_card_holder_identification })
    }
}

impl Parse for Identification {
    open spec fn parse_ok(d: Seq<u8>, p: int) -> bool {
        let p1 = CardIdentification::parse_end(d, p);
        CardIdentification::parse_ok(d, p)
            && DriverCardHolderIdentification::parse_ok(d, p1)
    }

    open spec fn parse_end(d: Seq<u8>, p: int) -> int {
        let p1 = CardIdentification::parse_end(d, p);
        let p2 = DriverCardHolderIdentification::parse_end(d, p1);
        if !CardIdentification::parse_ok(d, p) {
            p1
        } else if !DriverCardHolderIdentification::parse_ok(d, p1) {
            p2
        } else {
            p2
        }
    }

    open spec fn parsed_as(d: Seq<u8>, p: int, v: Identification) -> bool {
        let p1 = CardIdentification::parse_end(d, p);
        CardIdentification::parsed_as(d, p, v.card_identification)
            && DriverCardHolderIdentification::parsed_as(d, p1, v.driver_card_holder_identification)
    }

    open spec fn parse_err(d: Seq<u8>, p: int) -> ParseError {
        let p1 = CardIdentification::parse_end(d, p);
        if !CardIdentification::parse_ok(d, p) {
            CardIdentification::parse_err(d, p)
        } else if !DriverCardHolderIdentification::parse_ok(d, p1) {
            DriverCardHolderIdentification::parse_err(d, p1)
        } else {
            ParseError::InvalidValue
        }
    }

    fn parse(cursor: &mut Cursor) -> (res: Result<Identification, ParseError>) {
        Identification::parse(cursor)
    }
}

/// CardDrivingLicenceInformation (appendix 2.18).
#[derive(Debug)]
pub struct CardDrivingLicenceInformation {
    pub driving_licence_issuing_authority: Name,
    pub driving_licence_issuing_nation: external::NationNumeric,
    pub driving_licence_number: IA5String,
}

impl CardDrivingLicenceInformation {
    /// Reads a `CardDrivingLicenceInformation` at the reader's position.
    pub fn parse(cursor: &mut Cursor) -> (res: Result<CardDrivingLicenceInformation, ParseError>)
        ensures
            final(cursor).data() == old(cursor).data(),
            old(cursor).pos() <= final(cursor).pos(),
            final(cursor).pos() == CardDrivingLicenceInformation::parse_end(old(cursor).data(), old(cursor).pos()),
            res is Ok <==> CardDrivingLicenceInformation::parse_ok(old(cursor).data(), old(cursor).pos()),
            res matches Ok(v) ==> CardDrivingLicenceInformation::parsed_as(old(cursor).data(), old(cursor).pos(), v),
            res matches Err(e) ==> e == CardDrivingLicenceInformation::parse_err(old(cursor).data(), old(cursor).pos()),
    {
        let driving_licence_issuing_authority = Name::parse(cursor)?;
        let driving_licence_issuing_nation = external::NationNumeric::parse(cursor)?;
        let driving_licence_number = IA5String::parse_dyn_size(cursor, 16)?;
        Ok(CardDrivingLicenceInformation { driving_licence_issuing_authority, driving_licence_issuing_nation, driving_licence_number })
    }
}

impl Parse for CardDrivingLicenceInformation {
    open spec fn parse_ok(d: Seq<u8>, p: int) -> bool {
        let p1 = Name::parse_end(d, p);
        let p2 = external::NationNumeric::parse_end(d, p1);
        Name::parse_ok(d, p)
            && external::NationNumeric::parse_ok(d, p1)
            && IA5String::dyn_ok(d, p2, 16)
    }

    open spec fn parse_end(d: Seq<u8>, p: int) -> int {
        let p1 = Name::parse_end(d, p);
        let p2 = external::NationNumeric::parse_end(d, p1);
        let p3 = IA5String::dyn_end(d, p2, 16);
        if !Name::parse_ok(d, p) {
            p1
        } else if !external::NationNumeric::parse_ok(d, p1) {
            p2
        } else if !IA5String::dyn_ok(d, p2, 16) {
            p3
        } else {
            p3
        }
    }

    open spec fn parsed_as(d: Seq<u8>, p: int, v: CardDrivingLicenceInformation) -> bool {
        let p1 = Name::parse_end(d, p);
        let p2 = external::NationNumeric::parse_end(d, p1);
        Name::parsed_as(d, p, v.driving_licence_issuing_authority)
            && external::NationNumeric::parsed_as(d, p1, v.driving_licence_issuing_nation)
            && IA5String::dyn_as(d, p2, 16, v.driving_licence_number)
    }

    open spec fn parse_err(d: Seq<u8>, p: int) -> ParseError {
        let p1 = Name::parse_end(d, p);
        let p2 = external::NationNumeric::parse_end(d, p1);
        if !Name::parse_ok(d, p) {
            Name::parse_err(d, p)
        } else if !external::NationNumeric::parse_ok(d, p1) {
            external::NationNumeric::parse_err(d, p1)
        } else if !IA5String::dyn_ok(d, p2, 16) {
            IA5String::dyn_err(d, p2, 16)
        } else {
            ParseError::InvalidValue
        }
    }

    fn parse(cursor: &mut Cursor) -> (res: Result<CardDrivingLicenceInformation, ParseError>) {
        CardDrivingLicenceInformation::parse(cursor)
    }
}

/// The Driving_Licence_Info file of a driver card.
#[derive(Debug)]
pub struct CardDrivingLicenceInfo {
    pub card_driving_licence_information: CardDrivingLicenceInformation,
}

impl CardDrivingLicenceInfo {
    /// Reads a `CardDrivingLicenceInfo` at the reader's position.
    pub fn parse(cursor: &mut Cursor) -> (res: Result<CardDrivingLicenceInfo, ParseError>)
        ensures
            final(cursor).data() == old(cursor).data(),
            old(cursor).pos() <= final(cursor).pos(),
            final(cursor).pos() == CardDrivingLicenceInfo::parse_end(old(cursor).data(), old(cursor).pos()),
            res is Ok <==> CardDrivingLicenceInfo::parse_ok(old(cursor).data(), old(cursor).pos()),
            res matches Ok(v) ==> CardDrivingLicenceInfo::parsed_as(old(cursor).data(), old(cursor).pos(), v),
            res matches Err(e) ==> e == CardDrivingLicenceInfo::parse_err(old(cursor).data(), old(cursor).pos()),
    {
        let card_driving_licence_information = CardDrivingLicenceInformation::parse(cursor)?;
        Ok(CardDrivingLicenceInfo { card_driving_licence_information })
    }
}

impl Parse for CardDrivingLicenceInfo {
    open spec fn parse_ok(d: Seq<u8>, p: int) -> bool {
        CardDrivingLicenceInformation::parse_ok(d, p)
    }

    open spec fn parse_end(d: Seq<u8>, p: int) -> int {
        let p1 = CardDrivingLicenceInformation::parse_end(d, p);
        if !CardDrivingLicenceInformation::parse_ok(d, p) {
            p1
        } else {
            p1
        }
    }

    open spec fn parsed_as(d: Seq<u8>, p: int, v: CardDrivingLicenceInfo) -> bool {
        CardDrivingLicenceInformation::parsed_as(d, p, v.card_driving_licence_information)
    }

    open spec fn parse_err(d: Seq<u8>, p: int) -> ParseError {
        if !CardDrivingLicenceInformation::parse_ok(d, p) {
            CardDrivingLicenceInformation::parse_err(d, p)
        } else {
            ParseError::InvalidValue
        }
    }

    fn parse(cursor: &mut Cursor) -> (res: Result<CardDrivingLicenceInfo, ParseError>) {
        CardDrivingLicenceInfo::parse(cursor)
    }
}

/// DailyPresenceCounter (appendix 2.56): four BCD digits.
#[derive(Debug)]
pub struct DailyPresenceCounter(pub u16);

impl DailyPresenceCounter {
    /// Reads a `DailyPresenceCounter` at the reader's position.
    pub fn parse(cursor: &mut Cursor) -> (res: Result<DailyPresenceCounter, ParseError>)
        ensures
            final(cursor).data() == old(cursor).data(),
            old(cursor).pos() <= final(cursor).pos(),
            final(cursor).pos() == DailyPresenceCounter::parse_end(old(cursor).data(), old(cursor).pos()),
            res is Ok <==> DailyPresenceCounter::parse_ok(old(cursor).data(), old(cursor).pos()),
            res matches Ok(v) ==> DailyPresenceCounter::parsed_as(old(cursor).data(), old(cursor).pos(), v),
            res matches Err(e) ==> e == DailyPresenceCounter::parse_err(old(cursor).data(), old(cursor).pos()),
    {
        let value = read_bcd_number(cursor, 2)? as u16;
        Ok(DailyPresenceCounter(value))
    }
}

impl Parse for DailyPresenceCounter {
    open spec fn parse_ok(d: Seq<u8>, p: int) -> bool {
        bytes_ok(d, p, 2) && bcd_digits_ok(d.subrange(p, p + 2))
    }

    open spec fn parse_end(d: Seq<u8>, p: int) -> int {
        let p1 = bytes_end(d, p, 2);
        if !(bytes_ok(d, p, 2) && bcd_digits_ok(d.subrange(p, p + 2))) {
            p1
        } else {
            p1
        }
    }

    open spec fn parsed_as(d: Seq<u8>, p: int, v: DailyPresenceCounter) -> bool {
        v.0 == bcd_value(d.subrange(p, p + 2))
    }

    open spec fn parse_err(d: Seq<u8>, p: int) -> ParseError {
        if !(bytes_ok(d, p, 2) && bcd_digits_ok(d.subrange(p, p + 2))) {
            (if !bytes_ok(d, p, 2) { ParseError::UnexpectedEnd } else { ParseError::InvalidValue })
        } else {
            ParseError::InvalidValue
        }
    }

    fn parse(cursor: &mut Cursor) -> (res: Result<DailyPresenceCounter, ParseError>) {
        DailyPresenceCounter::parse(cursor)
    }
}

/// Distance (appendix 2.60): km.
#[derive(Debug)]
pub struct Distance(pub u16);

impl Distance {
    /// Reads a `Distance` at the reader's position.
    pub fn parse(cursor: &mut Cursor) -> (res: Result<Distance, ParseError>)
        ensures
            final(cursor).data() == old(cursor).data(),
            old(cursor).pos() <= final(cursor).pos(),
            final(cursor).pos() == Distance::parse_end(old(cursor).data(), old(cursor).pos()),
            res is Ok <==> Distance::parse_ok(old(cursor).data(), old(cursor).pos()),
            res matches Ok(v) ==> Distance::parsed_as(old(cursor).data(), old(cursor).pos(), v),
            res matches Err(e) ==> e == Distance::parse_err(old(cursor).data(), old(cursor).pos()),
    {
        let value = u16::parse(cursor)?;
        Ok(Distance(value))
    }
}

impl Parse for Distance {
    open spec fn parse_ok(d: Seq<u8>, p: int) -> bool {
        u16::parse_ok(d, p)
    }

    open spec fn parse_end(d: Seq<u8>, p: int) -> int {
        let p1 = u16::parse_end(d, p);
        if !u16::parse_ok(d, p) {
            p1
        } else {
            p1
        }
    }

    open spec fn parsed_as(d: Seq<u8>, p: int, v: Distance) -> bool {
        u16::parsed_as(d, p, v.0)
    }

    open spec fn parse_err(d: Seq<u8>, p: int) -> ParseError {
        if !u16::parse_ok(d, p) {
            u16::parse_err(d, p)
        } else {
            ParseError::InvalidValue
        }
    }

    fn parse(cursor: &mut Cursor) -> (res: Result<Distance, ParseError>) {
        Distance::parse(cursor)
    }
}

/// VuDataBlockCounter (appendix 2.189): four BCD digits.
#[derive(Debug)]
pub struct VuDataBlockCounter(pub u16);

impl VuDataBlockCounter {
    /// Reads a `VuDataBlockCounter` at the reader's position.
    pub fn parse(cursor: &mut Cursor) -> (res: Result<VuDataBlockCounter, ParseError>)
        ensures
            final(cursor).data() == old(cursor).data(),
            old(cursor).pos() <= final(cursor).pos(),
            final(cursor).pos() == VuDataBlockCounter::parse_end(old(cursor).data(), old(cursor).pos()),
            res is Ok <==> VuDataBlockCounter::parse_ok(old(cursor).data(), old(cursor).pos()),
            res matches Ok(v) ==> VuDataBlockCounter::parsed_as(old(cursor).data(), old(cursor).pos(), v),
            res matches Err(e) ==> e == VuDataBlockCounter::parse_err(old(cursor).data(), old(cursor).pos()),
    {
        let value = read_bcd_number(cursor, 2)? as u16;
        Ok(VuDataBlockCounter(value))
    }
}

impl Parse for VuDataBlockCounter {
    open spec fn parse_ok(d: Seq<u8>, p: int) -> bool {
        bytes_ok(d, p, 2) && bcd_digits_ok(d.subrange(p, p + 2))
    }

    open spec fn parse_end(d: Seq<u8>, p: int) -> int {
        let p1 = bytes_end(d, p, 2);
        if !(bytes_ok(d, p, 2) && bcd_digits_ok(d.subrange(p, p + 2))) {
            p1
        } else {
            p1
        }
    }

    open spec fn parsed_as(d: Seq<u8>, p: int, v: VuDataBlockCounter) -> bool {
        v.0 == bcd_value(d.subrange(p, p + 2))
    }

    open spec fn parse_err(d: Seq<u8>, p: int) -> ParseError {
        if !(bytes_ok(d, p, 2) && bcd_digits_ok(d.subrange(p, p + 2))) {
            (if !bytes_ok(d, p, 2) { ParseError::UnexpectedEnd } else { ParseError::InvalidValue })
        } else {
            ParseError::InvalidValue
        }
    }

    fn parse(cursor: &mut Cursor) -> (res: Result<VuDataBlockCounter, ParseError>) {
        VuDataBlockCounter::parse(cursor)
    }
}

/// CardCurrentUse (appendix 2.16).
#[derive(Debug)]
pub struct CardCurrentUse {
    pub session_open_time: TimeReal,
    pub session_open_vehicle: VehicleRegistrationIdentification,
}

impl CardCurrentUse {
    /// Reads a `CardCurrentUse` at the reader's position.
    pub fn parse(cursor: &mut Cursor) -> (res: Result<CardCurrentUse, ParseError>)
        ensures
            final(cursor).data() == old(cursor).data(),
            old(cursor).pos() <= final(cursor).pos(),
            final(cursor).pos() == CardCurrentUse::parse_end(old(cursor).data(), old(cursor).pos()),
            res is Ok <==> CardCurrentUse::parse_ok(old(cursor).data(), old(cursor).pos()),
            res matches Ok(v) ==> CardCurrentUse::parsed_as(old(cursor).data(), old(cursor).pos(), v),
            res matches Err(e) ==> e == CardCurrentUse::parse_err(old(cursor).data(), old(cursor).pos()),
    {
        let session_open_time = TimeReal::parse(cursor)?;
        let session_open_vehicle = VehicleRegistrationIdentification::parse(cursor)?;
        Ok(CardCurrentUse { session_open_time, session_open_vehicle })
    }
}

impl Parse for CardCurrentUse {
    open spec fn parse_ok(d: Seq<u8>, p: int) -> bool {
        let p1 = TimeReal::parse_end(d, p);
        TimeReal::parse_ok(d, p)
            && VehicleRegistrationIdentification::parse_ok(d, p1)
    }

    open spec fn parse_end(d: Seq<u8>, p: int) -> int {
        let p1 = TimeReal::parse_end(d, p);
        let p2 = VehicleRegistrationIdentification::parse_end(d, p1);
        if !TimeReal::parse_ok(d, p) {
            p1
        } else if !VehicleRegistrationIdentification::parse_ok(d, p1) {
            p2
        } else {
            p2
        }
    }

    open spec fn parsed_as(d: Seq<u8>, p: int, v: CardCurrentUse) -> bool {
        let p1 = TimeReal::parse_end(d, p);
        TimeReal::parsed_as(d, p, v.session_open_time)
            && VehicleRegistrationIdentification::parsed_as(d, p1, v.session_open_vehicle)
    }

    open spec fn parse_err(d: Seq<u8>, p: int) -> ParseError {
        let p1 = TimeReal::parse_end(d, p);
        if !TimeReal::parse_ok(d, p) {
            TimeReal::parse_err(d, p)
        } else if !VehicleRegistrationIdentification::parse_ok(d, p1) {
            VehicleRegistrationIdentification::parse_err(d, p1)
        } else {
            ParseError::InvalidValue
        }
    }

    fn parse(cursor: &mut Cursor) -> (res: Result<CardCurrentUse, ParseError>) {
        CardCurrentUse::parse(cursor)
    }
}

/// The Current_Usage file of a driver card.
#[derive(Debug)]
pub struct CurrentUsage {
    pub card_current_use: CardCurrentUse,
}

impl CurrentUsage {
    /// Reads a `CurrentUsage` at the reader's position.
    pub fn parse(cursor: &mut Cursor) -> (res: Result<CurrentUsage, ParseError>)
        ensures
            final(cursor).data() == old(cursor).data(),
            old(cursor).pos() <= final(cursor).pos(),
            final(cursor).pos() == CurrentUsage::parse_end(old(cursor).data(), old(cursor).pos()),
            res is Ok <==> CurrentUsage::parse_ok(old(cursor).data(), old(cursor).pos()),
            res matches Ok(v) ==> CurrentUsage::parsed_as(old(cursor).data(), old(cursor).pos(), v),
            res matches Err(e) ==> e == CurrentUsage::parse_err(old(cursor).data(), old(cursor).pos()),
    {
        let card_current_use = CardCurrentUse::parse(cursor)?;
        Ok(CurrentUsage { card_current_use })
    }
}

impl Parse for CurrentUsage {
    open spec fn parse_ok(d: Seq<u8>, p: int) -> bool {
        CardCurrentUse::parse_ok(d, p)
    }

    open spec fn parse_end(d: Seq<u8>, p: int) -> int {
        let p1 = CardCurrentUse::parse_end(d, p);
        if !CardCurrentUse::parse_ok(d, p) {
            p1
        } else {
            p1
        }
    }

    open spec fn parsed_as(d: Seq<u8>, p: int, v: CurrentUsage) -> bool {
        CardCurrentUse::parsed_as(d, p, v.card_current_use)
    }

    open spec fn parse_err(d: Seq<u8>, p: int) -> ParseError {
        if !CardCurrentUse::parse_ok(d, p) {
            CardCurrentUse::parse_err(d, p)
        } else {
            ParseError::InvalidValue
        }
    }

    fn parse(cursor: &mut Cursor) -> (res: Result<CurrentUsage, ParseError>) {
        CurrentUsage::parse(cursor)
    }
}

/// MonthYear: two BCD digits of month, two of year.
#[derive(Debug)]
pub struct MonthYear {
    pub month: u8,
    pub year: u8,
}

impl MonthYear {
    /// Reads a `MonthYear` at the reader's position.
    pub fn parse(cursor: &mut Cursor) -> (res: Result<MonthYear, ParseError>)
        ensures
            final(cursor).data() == old(cursor).data(),
            old(cursor).pos() <= final(cursor).pos(),
            final(cursor).pos() == MonthYear::parse_end(old(cursor).data(), old(cursor).pos()),
            res is Ok <==> MonthYear::parse_ok(old(cursor).data(), old(cursor).pos()),
            res matches Ok(v) ==> MonthYear::parsed_as(old(cursor).data(), old(cursor).pos(), v),
            res matches Err(e) ==> e == MonthYear::parse_err(old(cursor).data(), old(cursor).pos()),
    {
        let month = read_bcd_number(cursor, 1)? as u8;
        let year = read_bcd_number(cursor, 1)? as u8;
        Ok(MonthYear { month, year })
    }
}

impl Parse for MonthYear {
    open spec fn parse_ok(d: Seq<u8>, p: int) -> bool {
        let p1 = bytes_end(d, p, 1);
        bytes_ok(d, p, 1) && bcd_digits_ok(d.subrange(p, p + 1))
            && bytes_ok(d, p1, 1) && bcd_digits_ok(d.subrange(p1, p1 + 1))
    }

    open spec fn parse_end(d: Seq<u8>, p: int) -> int {
        let p1 = bytes_end(d, p, 1);
        let p2 = bytes_end(d, p1, 1);
        if !(bytes_ok(d, p, 1) && bcd_digits_ok(d.subrange(p, p + 1))) {
            p1
        } else if !(bytes_ok(d, p1, 1) && bcd_digits_ok(d.subrange(p1, p1 + 1))) {
            p2
        } else {
            p2
        }
    }

    open spec fn parsed_as(d: Seq<u8>, p: int, v: MonthYear) -> bool {
        let p1 = bytes_end(d, p, 1);
        v.month == bcd_value(d.subrange(p, p + 1))
            && v.year == bcd_value(d.subrange(p1, p1 + 1))
    }

    open spec fn parse_err(d: Seq<u8>, p: int) -> ParseError {
        let p1 = bytes_end(d, p, 1);
        if !(bytes_ok(d, p, 1) && bcd_digits_ok(d.subrange(p, p + 1))) {
            (if !bytes_ok(d, p, 1) { ParseError::UnexpectedEnd } else { ParseError::InvalidValue })
        } else if !(bytes_ok(d, p1, 1) && bcd_digits_ok(d.subrange(p1, p1 + 1))) {
            (if !bytes_ok(d, p1, 1) { ParseError::UnexpectedEnd } else { ParseError::InvalidValue })
        } else {
            ParseError::InvalidValue
        }
    }

    fn parse(cursor: &mut Cursor) -> (res: Result<MonthYear, ParseError>) {
        MonthYear::parse(cursor)
    }
}

/// VuDownloadablePeriod (appendix 2.193).
#[derive(Debug)]
pub struct VuDownloadablePeriod {
    pub min_downloadable_time: TimeReal,
    pub max_downloadable_time: TimeReal,
}

impl VuDownloadablePeriod {
    /// Reads a `VuDownloadablePeriod` at the reader's position.
    pub fn parse(cursor: &mut Cursor) -> (res: Result<VuDownloadablePeriod, ParseError>)
        ensures
            final(cursor).data() == old(cursor).data(),
            old(cursor).pos() <= final(cursor).pos(),
            final(cursor).pos() == VuDownloadablePeriod::parse_end(old(cursor).data(), old(cursor).pos()),
            res is Ok <==> VuDownloadablePeriod::parse_ok(old(cursor).data(), old(cursor).pos()),
            res matches Ok(v) ==> VuDownloadablePeriod::parsed_as(old(cursor).data(), old(cursor).pos(), v),
            res matches Err(e) ==> e == VuDownloadablePeriod::parse_err(old(cursor).data(), old(cursor).pos()),
    {
        let min_downloadable_time = TimeReal::parse(cursor)?;
        let max_downloadable_time = TimeReal::parse(cursor)?;
        Ok(VuDownloadablePeriod { min_downloadable_time, max_downloadable_time })
    }
}

impl Parse for VuDownloadablePeriod {
    open spec fn parse_ok(d: Seq<u8>, p: int) -> bool {
        let p1 = TimeReal::parse_end(d, p);
        TimeReal::parse_ok(d, p)
            && TimeReal::parse_ok(d, p1)
    }

    open spec fn parse_end(d: Seq<u8>, p: int) -> int {
        let p1 = TimeReal::parse_end(d, p);
        let p2 = TimeReal::parse_end(d, p1);
        if !TimeReal::parse_ok(d, p) {
            p1
        } else if !TimeReal::parse_ok(d, p1) {
            p2
        } else {
            p2
        }
    }

    open spec fn parsed_as(d: Seq<u8>, p: int, v: VuDownloadablePeriod) -> bool {
        let p1 = TimeReal::parse_end(d, p);
        TimeReal::parsed_as(d, p, v.min_downloadable_time)
            && TimeReal::parsed_as(d, p1, v.max_downloadable_time)
    }

    open spec fn parse_err(d: Seq<u8>, p: int) -> ParseError {
        let p1 = TimeReal::parse_end(d, p);
        if !TimeReal::parse_ok(d, p) {
            TimeReal::parse_err(d, p)
        } else if !TimeReal::parse_ok(d, p1) {
            TimeReal::parse_err(d, p1)
        } else {
            ParseError::InvalidValue
        }
    }

    fn parse(cursor: &mut Cursor) -> (res: Result<VuDownloadablePeriod, ParseError>) {
        VuDownloadablePeriod::parse(cursor)
    }
}

/// VuPartNumber (appendix 2.217): sixteen characters.
#[derive(Debug)]
pub struct VuPartNumber(pub IA5String);

impl VuPartNumber {
    /// Reads a `VuPartNumber` at the reader's position.
    pub fn parse(cursor: &mut Cursor) -> (res: Result<VuPartNumber, ParseError>)
        ensures
            final(cursor).data() == old(cursor).data(),
            old(cursor).pos() <= final(cursor).pos(),
            final(cursor).pos() == VuPartNumber::parse_end(old(cursor).data(), old(cursor).pos()),
            res is Ok <==> VuPartNumber::parse_ok(old(cursor).data(), old(cursor).pos()),
            res matches Ok(v) ==> VuPartNumber::parsed_as(old(cursor).data(), old(cursor).pos(), v),
            res matches Err(e) ==> e == VuPartNumber::parse_err(old(cursor).data(), old(cursor).pos()),
    {
        let value = IA5String::parse_dyn_size(cursor, 16)?;
        Ok(VuPartNumber(value))
    }
}

impl Parse for VuPartNumber {
    open spec fn parse_ok(d: Seq<u8>, p: int) -> bool {
        IA5String::dyn_ok(d, p, 16)
    }

    open spec fn parse_end(d: Seq<u8>, p: int) -> int {
        let p1 = IA5String::dyn_end(d, p, 16);
        if !IA5String::dyn_ok(d, p, 16) {
            p1
        } else {
            p1
        }
    }

    open spec fn parsed_as(d: Seq<u8>, p: int, v: VuPartNumber) -> bool {
        IA5String::dyn_as(d, p, 16, v.0)
    }

    open spec fn parse_err(d: Seq<u8>, p: int) -> ParseError {
        if !IA5String::dyn_ok(d, p, 16) {
            IA5String::dyn_err(d, p, 16)
        } else {
            ParseError::InvalidValue
        }
    }

    fn parse(cursor: &mut Cursor) -> (res: Result<VuPartNumber, ParseError>) {
        VuPartNumber::parse(cursor)
    }
}

/// The Driver_Activity_Data file of a driver card.
#[derive(Debug)]
pub struct DriverActivityData {
    pub card_driver_activity: CardDriverActivity,
}

impl DriverActivityData {
    /// Reads a `DriverActivityData` at the reader's position.
    pub fn parse(cursor: &mut Cursor) -> (res: Result<DriverActivityData, ParseError>)
        ensures
            final(cursor).data() == old(cursor).data(),
            old(cursor).pos() <= final(cursor).pos(),
            final(cursor).pos() == DriverActivityData::parse_end(old(cursor).data(), old(cursor).pos()),
            res is Ok <==> DriverActivityData::parse_ok(old(cursor).data(), old(cursor).pos()),
            res matches Ok(v) ==> DriverActivityData::parsed_as(old(cursor).data(), old(cursor).pos(), v),
            res matches Err(e) ==> e == DriverActivityData::parse_err(old(cursor).data(), old(cursor).pos()),
    {
        let card_driver_activity = CardDriverActivity::parse(cursor)?;
        Ok(DriverActivityData { card_driver_activity })
    }
}

impl Parse for DriverActivityData {
    open spec fn parse_ok(d: Seq<u8>, p: int) -> bool {
        CardDriverActivity::parse_ok(d, p)
    }

    open spec fn parse_end(d: Seq<u8>, p: int) -> int {
        let p1 = CardDriverActivity::parse_end(d, p);
        if !CardDriverActivity::parse_ok(d, p) {
            p1
        } else {
            p1
        }
    }

    open spec fn parsed_as(d: Seq<u8>, p: int, v: DriverActivityData) -> bool {
        CardDriverActivity::parsed_as(d, p, v.card_driver_activity)
    }

    open spec fn parse_err(d: Seq<u8>, p: int) -> ParseError {
        if !CardDriverActivity::parse_ok(d, p) {
            CardDriverActivity::parse_err(d, p)
        } else {
            ParseError::InvalidValue
        }
    }

    fn parse(cursor: &mut Cursor) -> (res: Result<DriverActivityData, ParseError>) {
        DriverActivityData::parse(cursor)
    }
}

/// The state of a card slot, as four bits of CardSlotsStatus.
#[derive(Debug, Clone, Copy, PartialEq, Eq, Structural)]
pub enum CardSlotStatus {
    NoCardInserted,
    DriverCardInserted,
    WorkshopCardInserted,
    ControlCardInserted,
    CompanyCardInserted,
}

impl CardSlotStatus {
    /// The state that the four bits `n` encode, if any.
    pub open spec fn from_nibble(n: int) -> Option<CardSlotStatus> {
        if n == 0 {
            Some(CardSlotStatus::NoCardInserted)
        } else if n == 1 {
            Some(CardSlotStatus::DriverCardInserted)
        } else if n == 2 {
            Some(CardSlotStatus::WorkshopCardInserted)
        } else if n == 3 {
            Some(CardSlotStatus::ControlCardInserted)
        } else if n == 4 {
            Some(CardSlotStatus::CompanyCardInserted)
        } else {
            None
        }
    }

    fn decode(n: u8) -> (r: Option<CardSlotStatus>)
        ensures
            r == CardSlotStatus::from_nibble(n as int),
    {
        match n {
            0 => Some(CardSlotStatus::NoCardInserted),
            1 => Some(CardSlotStatus::DriverCardInserted),
            2 => Some(CardSlotStatus::WorkshopCardInserted),
            3 => Some(CardSlotStatus::ControlCardInserted),
            4 => Some(CardSlotStatus::CompanyCardInserted),
            _ => None,
        }
    }
}

/// CardSlotsStatus (appendix 2.34): the co-driver slot in the high four bits,
/// the driver slot in the low four bits.
#[derive(Debug)]
pub struct CardSlotsStatus {
    pub codriver: CardSlotStatus,
    pub driver: CardSlotStatus,
}

impl CardSlotsStatus {
    /// Reads a `CardSlotsStatus` at the reader's position.
    pub fn parse(cursor: &mut Cursor) -> (res: Result<CardSlotsStatus, ParseError>)
        ensures
            final(cursor).data() == old(cursor).data(),
            old(cursor).pos() <= final(cursor).pos(),
            final(cursor).pos() == CardSlotsStatus::parse_end(old(cursor).data(), old(cursor).pos()),
            res is Ok <==> CardSlotsStatus::parse_ok(old(cursor).data(), old(cursor).pos()),
            res matches Ok(v) ==> CardSlotsStatus::parsed_as(old(cursor).data(), old(cursor).pos(), v),
            res matches Err(e) ==> e == CardSlotsStatus::parse_err(old(cursor).data(), old(cursor).pos()),
    {
        let status = cursor.read_u8()?;
        let codriver = match CardSlotStatus::decode(status / 16) {
            Some(s) => s,
            None => return Err(ParseError::InvalidValue),
        };
        let driver = match CardSlotStatus::decode(status % 16) {
            Some(s) => s,
            None => return Err(ParseError::InvalidValue),
        };
        Ok(CardSlotsStatus { codriver, driver })
    }
}

impl Parse for CardSlotsStatus {
    open spec fn parse_ok(d: Seq<u8>, p: int) -> bool {
        bytes_ok(d, p, 1) && CardSlotStatus::from_nibble((d[p] / 16) as int) is Some
            && CardSlotStatus::from_nibble((d[p] % 16) as int) is Some
    }

    open spec fn parse_end(d: Seq<u8>, p: int) -> int {
        bytes_end(d, p, 1)
    }

    open spec fn parse_err(d: Seq<u8>, p: int) -> ParseError {
        if !bytes_ok(d, p, 1) {
            ParseError::UnexpectedEnd
        } else {
            ParseError::InvalidValue
        }
    }

    open spec fn parsed_as(d: Seq<u8>, p: int, v: CardSlotsStatus) -> bool {
        CardSlotStatus::from_nibble((d[p] / 16) as int) == Some(v.codriver)
            && CardSlotStatus::from_nibble((d[p] % 16) as int) == Some(v.driver)
    }

    fn parse(cursor: &mut Cursor) -> (res: Result<CardSlotsStatus, ParseError>) {
        CardSlotsStatus::parse(cursor)
    }
}

/// OdometerShort (appendix 2.113): a distance in km, three bytes big-endian.
#[derive(Debug)]
pub struct OdometerShort(pub u32);

impl OdometerShort {
    /// Reads a `OdometerShort` at the reader's position.
    pub fn parse(cursor: &mut Cursor) -> (res: Result<OdometerShort, ParseError>)
        ensures
            final(cursor).data() == old(cursor).data(),
            old(cursor).pos() <= final(cursor).pos(),
            final(cursor).pos() == OdometerShort::parse_end(old(cursor).data(), old(cursor).pos()),
            res is Ok <==> OdometerShort::parse_ok(old(cursor).data(), old(cursor).pos()),
            res matches Ok(v) ==> OdometerShort::parsed_as(old(cursor).data(), old(cursor).pos(), v),
            res matches Err(e) ==> e == OdometerShort::parse_err(old(cursor).data(), old(cursor).pos()),
    {
        let km = cursor.read_u24_be()?;
        Ok(OdometerShort(km))
    }
}

impl Parse for OdometerShort {
    open spec fn parse_ok(d: Seq<u8>, p: int) -> bool {
        bytes_ok(d, p, 3)
    }

    open spec fn parse_end(d: Seq<u8>, p: int) -> int {
        bytes_end(d, p, 3)
    }

    open spec fn parse_err(d: Seq<u8>, p: int) -> ParseError {
        ParseError::UnexpectedEnd
    }

    open spec fn parsed_as(d: Seq<u8>, p: int, v: OdometerShort) -> bool {
        v.0 == crate::cursor::be24(d, p)
    }

    fn parse(cursor: &mut Cursor) -> (res: Result<OdometerShort, ParseError>) {
        OdometerShort::parse(cursor)
    }
}

/// OdometerValueMidnight (appendix 2.114).
pub type OdometerValueMidnight = OdometerShort;

/// Which slot an activity change concerns.
#[derive(Debug, Clone, Copy, PartialEq, Eq, Structural)]
pub enum ActivityChangeInfoSlot {
    Driver,
    CoDriver,
}

/// Whether the vehicle was driven by one driver or a crew.
#[derive(Debug, Clone, Copy, PartialEq, Eq, Structural)]
pub enum ActivityChangeInfoDrivingStatus {
    Single,
    Crew,
}

/// Whether a card was in the slot.
#[derive(Debug, Clone, Copy, PartialEq, Eq, Structural)]
pub enum ActivityChangeInfoCardStatusSlot {
    Inserted,
    NotInserted,
}

/// The activity that begins at the change.
#[derive(Debug, Clone, Copy, PartialEq, Eq, Structural)]
pub enum ActivityChangeInfoCardActivity {
    BreakRest,
    Availability,
    Work,
    Driving,
}

/// ActivityChangeInfo (appendix 2.1): two bytes, `scpaattttttttttt`: slot,
/// crew status, card status, activity, and the minute of the day the change
/// happened.
#[derive(Debug, Clone, Copy)]
pub struct ActivityChangeInfo {
    pub slot: ActivityChangeInfoSlot,
    pub driving_status: ActivityChangeInfoDrivingStatus,
    pub slot_status: ActivityChangeInfoCardStatusSlot,
    pub activity: ActivityChangeInfoCardActivity,
    pub minutes: u16,
}

impl ActivityChangeInfo {
    /// The number of bytes of an ActivityChangeInfo.
    pub const SIZE: usize = 2;

    /// The activity change that the 16-bit word `w` encodes.
    pub open spec fn decoded_as(w: int, v: ActivityChangeInfo) -> bool {
        &&& v.slot == (if (w / 32768) % 2 == 0 {
            ActivityChangeInfoSlot::Driver
        } else {
            ActivityChangeInfoSlot::CoDriver
        })
        &&& v.driving_status == (if (w / 16384) % 2 == 0 {
            ActivityChangeInfoDrivingStatus::Single
        } else {
            ActivityChangeInfoDrivingStatus::Crew
        })
        &&& v.slot_status == (if (w / 8192) % 2 == 0 {
            ActivityChangeInfoCardStatusSlot::Inserted
        } else {
            ActivityChangeInfoCardStatusSlot::NotInserted
        })
        &&& v.activity == (if (w / 2048) % 4 == 0 {
            ActivityChangeInfoCardActivity::BreakRest
        } else if (w / 2048) % 4 == 1 {
            ActivityChangeInfoCardActivity::Availability
        } else if (w / 2048) % 4 == 2 {
            ActivityChangeInfoCardActivity::Work
        } else {
            ActivityChangeInfoCardActivity::Driving
        })
        &&& v.minutes == w % 2048
    }
}

impl ActivityChangeInfo {
    /// Reads a `ActivityChangeInfo` at the reader's position.
    pub fn parse(cursor: &mut Cursor) -> (res: Result<ActivityChangeInfo, ParseError>)
        ensures
            final(cursor).data() == old(cursor).data(),
            old(cursor).pos() <= final(cursor).pos(),
            final(cursor).pos() == ActivityChangeInfo::parse_end(old(cursor).data(), old(cursor).pos()),
            res is Ok <==> ActivityChangeInfo::parse_ok(old(cursor).data(), old(cursor).pos()),
            res matches Ok(v) ==> ActivityChangeInfo::parsed_as(old(cursor).data(), old(cursor).pos(), v),
            res matches Err(e) ==> e == ActivityChangeInfo::parse_err(old(cursor).data(), old(cursor).pos()),
    {
        let mut inner = cursor.take_exact(ActivityChangeInfo::SIZE)?;
        let w = inner.read_u16_be()?;
        let slot = if (w / 32768) % 2 == 0 {
            ActivityChangeInfoSlot::Driver
        } else {
            ActivityChangeInfoSlot::CoDriver
        };
        let driving_status = if (w / 16384) % 2 == 0 {
            ActivityChangeInfoDrivingStatus::Single
        } else {
            ActivityChangeInfoDrivingStatus::Crew
        };
        let slot_status = if (w / 8192) % 2 == 0 {
            ActivityChangeInfoCardStatusSlot::Inserted
        } else {
            ActivityChangeInfoCardStatusSlot::NotInserted
        };
        let a = (w / 2048) % 4;
        let activity = if a == 0 {
            ActivityChangeInfoCardActivity::BreakRest
        } else if a == 1 {
            ActivityChangeInfoCardActivity::Availability
        } else if a == 2 {
            ActivityChangeInfoCardActivity::Work
        } else {
            ActivityChangeInfoCardActivity::Driving
        };
        Ok(
            ActivityChangeInfo {
                slot,
                driving_status,
                slot_status,
                activity,
                minutes: w % 2048,
            },
        )
    }
}

impl Parse for ActivityChangeInfo {
    open spec fn parse_ok(d: Seq<u8>, p: int) -> bool {
        bytes_ok(d, p, 2)
    }

    open spec fn parse_end(d: Seq<u8>, p: int) -> int {
        bytes_end(d, p, 2)
    }

    open spec fn parse_err(d: Seq<u8>, p: int) -> ParseError {
        ParseError::UnexpectedEnd
    }

    open spec fn parsed_as(d: Seq<u8>, p: int, v: ActivityChangeInfo) -> bool {
        ActivityChangeInfo::decoded_as(be16(d, p), v)
    }

    fn parse(cursor: &mut Cursor) -> (res: Result<ActivityChangeInfo, ParseError>) {
        ActivityChangeInfo::parse(cursor)
    }
}

/// LastCardDownload (appendix 2.89).
pub type LastCardDownload = TimeReal;

/// The card's last download time: four bytes, kept only when they hold a valid time.
#[derive(Debug)]
pub struct CardDownload {
    pub last_card_download: Option<LastCardDownload>,
}

impl CardDownload {
    /// Reads a `CardDownload` at the reader's position.
    pub fn parse(cursor: &mut Cursor) -> (res: Result<CardDownload, ParseError>)
        ensures
            final(cursor).data() == old(cursor).data(),
            old(cursor).pos() <= final(cursor).pos(),
            final(cursor).pos() == CardDownload::parse_end(old(cursor).data(), old(cursor).pos()),
            res is Ok <==> CardDownload::parse_ok(old(cursor).data(), old(cursor).pos()),
            res matches Ok(v) ==> CardDownload::parsed_as(old(cursor).data(), old(cursor).pos(), v),
            res matches Err(e) ==> e == CardDownload::parse_err(old(cursor).data(), old(cursor).pos()),
    {
        let mut inner = cursor.take_exact(TimeReal::SIZE)?;
        let last_card_download = parse_optional::<TimeReal>(&mut inner);
        Ok(CardDownload { last_card_download })
    }
}

impl Parse for CardDownload {
    open spec fn parse_ok(d: Seq<u8>, p: int) -> bool {
        bytes_ok(d, p, 4)
    }

    open spec fn parse_end(d: Seq<u8>, p: int) -> int {
        bytes_end(d, p, 4)
    }

    open spec fn parse_err(d: Seq<u8>, p: int) -> ParseError {
        ParseError::UnexpectedEnd
    }

    open spec fn parsed_as(d: Seq<u8>, p: int, v: CardDownload) -> bool {
        optional_as::<TimeReal>(d.subrange(p, p + 4), 0, v.last_card_download)
    }

    fn parse(cursor: &mut Cursor) -> (res: Result<CardDownload, ParseError>) {
        CardDownload::parse(cursor)
    }
}

/// VuDetailedSpeedBlock (appendix 2.192): the speeds of one minute, second by second.
#[derive(Debug)]
pub struct VuDetailedSpeedBlock {
    pub speed_block_begin_date: TimeReal,
    pub speeds_per_second: Vec<Speed>,
}

impl VuDetailedSpeedBlock {
    /// Reads a `VuDetailedSpeedBlock` at the reader's position.
    pub fn parse(cursor: &mut Cursor) -> (res: Result<VuDetailedSpeedBlock, ParseError>)
        ensures
            final(cursor).data() == old(cursor).data(),
            old(cursor).pos() <= final(cursor).pos(),
            final(cursor).pos() == VuDetailedSpeedBlock::parse_end(old(cursor).data(), old(cursor).pos()),
            res is Ok <==> VuDetailedSpeedBlock::parse_ok(old(cursor).data(), old(cursor).pos()),
            res matches Ok(v) ==> VuDetailedSpeedBlock::parsed_as(old(cursor).data(), old(cursor).pos(), v),
            res matches Err(e) ==> e == VuDetailedSpeedBlock::parse_err(old(cursor).data(), old(cursor).pos()),
    {
        let speed_block_begin_date = TimeReal::parse(cursor)?;
        let raw = cursor.read_bytes(60)?;
        let mut speeds_per_second: Vec<Speed> = Vec::new();
        let mut i: usize = 0;
        while i < 60
            invariant
                i <= 60,
                raw@.len() == 60,
                speeds_per_second.len() == i,
                forall|j: int| 0 <= j < i ==> #[trigger] speeds_per_second@[j].0 == raw@[j],
            decreases 60 - i,
        {
            speeds_per_second.push(Speed(raw[i]));
            i = i + 1;
        }
        Ok(VuDetailedSpeedBlock { speed_block_begin_date, speeds_per_second })
    }
}

impl Parse for VuDetailedSpeedBlock {
    open spec fn parse_ok(d: Seq<u8>, p: int) -> bool {
        TimeReal::parse_ok(d, p) && bytes_ok(d, p + 4, 60)
    }

    open spec fn parse_end(d: Seq<u8>, p: int) -> int {
        if !TimeReal::parse_ok(d, p) {
            TimeReal::parse_end(d, p)
        } else {
            bytes_end(d, p + 4, 60)
        }
    }

    open spec fn parse_err(d: Seq<u8>, p: int) -> ParseError {
        if !TimeReal::parse_ok(d, p) {
            TimeReal::parse_err(d, p)
        } else {
            ParseError::UnexpectedEnd
        }
    }

    open spec fn parsed_as(d: Seq<u8>, p: int, v: VuDetailedSpeedBlock) -> bool {
        &&& TimeReal::parsed_as(d, p, v.speed_block_begin_date)
        &&& v.speeds_per_second.len() == 60
        &&& forall|i: int| 0 <= i < 60 ==> #[trigger] v.speeds_per_second@[i].0 == d[p + 4 + i]
    }

    fn parse(cursor: &mut Cursor) -> (res: Result<VuDetailedSpeedBlock, ParseError>) {
        VuDetailedSpeedBlock::parse(cursor)
    }
}

/// CardActivityLengthRange (appendix 2.10).
pub type CardActivityLengthRange = u16;

/// The number of ActivityChangeInfo entries of a daily record of `record_length` bytes.
pub open spec fn activity_change_count(record_length: int) -> int {
    (record_length - 12) / 2
}

/// The activity changes of a daily record: `n` entries of two bytes from `p`,
/// each kept when it could be read.
pub open spec fn activity_changes_as(d: Seq<u8>, p: int, n: int, v: Seq<ActivityChangeInfo>) -> bool {
    let avail = if bytes_ok(d, p, 2 * n) {
        n
    } else if p <= d.len() {
        (d.len() - p) / 2
    } else {
        0
    };
    &&& v.len() == avail
    &&& forall|i: int|
        0 <= i < avail ==> #[trigger] ActivityChangeInfo::parsed_as(d, p + 2 * i, v[i])
}

/// CardActivityDailyRecord (appendix 2.9): the activities of one day. The
/// record length counts the 12 bytes of the fields before the activity changes.
#[derive(Debug)]
pub struct CardActivityDailyRecord {
    pub activity_previous_record_length: CardActivityLengthRange,
    pub activity_record_length: CardActivityLengthRange,
    pub activity_record_date: TimeReal,
    pub activity_daily_presence_counter: DailyPresenceCounter,
    pub activity_day_distance: Distance,
    pub activity_change_info: Vec<ActivityChangeInfo>,
}

impl CardActivityDailyRecord {
    /// Reads a `CardActivityDailyRecord` at the reader's position.
    pub fn parse(cursor: &mut Cursor) -> (res: Result<CardActivityDailyRecord, ParseError>)
        ensures
            final(cursor).data() == old(cursor).data(),
            old(cursor).pos() <= final(cursor).pos(),
            final(cursor).pos() == CardActivityDailyRecord::parse_end(old(cursor).data(), old(cursor).pos()),
            res is Ok <==> CardActivityDailyRecord::parse_ok(old(cursor).data(), old(cursor).pos()),
            res matches Ok(v) ==> CardActivityDailyRecord::parsed_as(old(cursor).data(), old(cursor).pos(), v),
            res matches Err(e) ==> e == CardActivityDailyRecord::parse_err(old(cursor).data(), old(cursor).pos()),
    {
        let activity_previous_record_length = cursor.read_u16_be()?;
        let activity_record_length = cursor.read_u16_be()?;
        if activity_record_length < 12 {
            return Err(ParseError::InvalidValue);
        }
        let activity_record_date = TimeReal::parse(cursor)?;
        let activity_daily_presence_counter = DailyPresenceCounter::parse(cursor)?;
        let activity_day_distance = Distance::parse(cursor)?;
        let records_amount = ((activity_record_length - 12) / 2) as usize;
        let ghost d = cursor.data();
        let ghost q = cursor.pos();
        let mut activity_change_info: Vec<ActivityChangeInfo> = Vec::new();
        let mut i: usize = 0;
        while i < records_amount
            invariant
                i <= records_amount,
                cursor.data() == d,
                0 <= q <= d.len(),
                cursor.pos() == if bytes_ok(d, q, 2 * i) {
                    q + 2 * i
                } else {
                    d.len() as int
                },
                activity_change_info.len() == if bytes_ok(d, q, 2 * i) {
                    i as int
                } else {
                    (d.len() - q) / 2
                },
                forall|j: int|
                    0 <= j < activity_change_info.len() ==> #[trigger] ActivityChangeInfo::parsed_as(
                        d,
                        q + 2 * j,
                        activity_change_info@[j],
                    ),
            decreases records_amount - i,
        {
            let ghost before = activity_change_info@;
            if let Ok(record) = ActivityChangeInfo::parse(cursor) {
                activity_change_info.push(record);
                proof {
                    assert forall|j: int|
                        0 <= j < activity_change_info.len() implies #[trigger] ActivityChangeInfo::parsed_as(
                        d,
                        q + 2 * j,
                        activity_change_info@[j],
                    ) by {
                        if j < before.len() {
                            assert(activity_change_info@[j] == before[j]);
                        }
                    }
                }
            }
            i = i + 1;
        }
        Ok(
            CardActivityDailyRecord {
                activity_previous_record_length,
                activity_record_length,
                activity_record_date,
                activity_daily_presence_counter,
                activity_day_distance,
                activity_change_info,
            },
        )
    }
}

impl Parse for CardActivityDailyRecord {
    open spec fn parse_ok(d: Seq<u8>, p: int) -> bool {
        &&& bytes_ok(d, p, 4)
        &&& be16(d, p + 2) >= 12
        &&& TimeReal::parse_ok(d, p + 4)
        &&& DailyPresenceCounter::parse_ok(d, p + 8)
        &&& Distance::parse_ok(d, p + 10)
    }

    open spec fn parse_end(d: Seq<u8>, p: int) -> int {
        if !bytes_ok(d, p, 4) {
            d.len() as int
        } else if be16(d, p + 2) < 12 {
            p + 4
        } else if !TimeReal::parse_ok(d, p + 4) {
            TimeReal::parse_end(d, p + 4)
        } else if !DailyPresenceCounter::parse_ok(d, p + 8) {
            DailyPresenceCounter::parse_end(d, p + 8)
        } else if !Distance::parse_ok(d, p + 10) {
            Distance::parse_end(d, p + 10)
        } else {
            let n = activity_change_count(be16(d, p + 2));
            if bytes_ok(d, p + 12, 2 * n) {
                p + 12 + 2 * n
            } else {
                d.len() as int
            }
        }
    }

    open spec fn parse_err(d: Seq<u8>, p: int) -> ParseError {
        if !bytes_ok(d, p, 4) {
            ParseError::UnexpectedEnd
        } else if be16(d, p + 2) < 12 {
            ParseError::InvalidValue
        } else if !TimeReal::parse_ok(d, p + 4) {
            TimeReal::parse_err(d, p + 4)
        } else if !DailyPresenceCounter::parse_ok(d, p + 8) {
            DailyPresenceCounter::parse_err(d, p + 8)
        } else {
            Distance::parse_err(d, p + 10)
        }
    }

    open spec fn parsed_as(d: Seq<u8>, p: int, v: CardActivityDailyRecord) -> bool {
        &&& v.activity_previous_record_length == be16(d, p)
        &&& v.activity_record_length == be16(d, p + 2)
        &&& TimeReal::parsed_as(d, p + 4, v.activity_record_date)
        &&& DailyPresenceCounter::parsed_as(d, p + 8, v.activity_daily_presence_counter)
        &&& Distance::parsed_as(d, p + 10, v.activity_day_distance)
        &&& activity_changes_as(
            d,
            p + 12,
            activity_change_count(be16(d, p + 2)),
            v.activity_change_info@,
        )
    }

    fn parse(cursor: &mut Cursor) -> (res: Result<CardActivityDailyRecord, ParseError>) {
        CardActivityDailyRecord::parse(cursor)
    }
}

/// The positions in `d` from `p` on where daily activity records follow one
/// another, up to the end of `d` or the first record that cannot be read.
pub open spec fn daily_record_positions(d: Seq<u8>, p: int) -> Seq<int>
    decreases d.len() - p,
{
    if 0 <= p < d.len() && CardActivityDailyRecord::parse_ok(d, p) && p
        < CardActivityDailyRecord::parse_end(d, p) <= d.len() {
        seq![p] + daily_record_positions(d, CardActivityDailyRecord::parse_end(d, p))
    } else {
        Seq::empty()
    }
}

/// `v` are the daily records read one after another from the start of `d`.
pub open spec fn daily_records_as(d: Seq<u8>, v: Seq<CardActivityDailyRecord>) -> bool {
    let ps = daily_record_positions(d, 0);
    &&& v.len() == ps.len()
    &&& forall|i: int| 0 <= i < v.len() ==> #[trigger] CardActivityDailyRecord::parsed_as(d, ps[i], v[i])
}

/// The number of bytes of the cyclic buffer of daily activity records.
pub const CARD_DRIVER_ACTIVITY_SIZE: usize = 13776;

/// Where the newest daily record of the cyclic buffer `c` ends, modulo the buffer size.
pub open spec fn cyclic_end(c: Seq<u8>, newest: int) -> int {
    (newest + be16(c, newest + 2)) % (CARD_DRIVER_ACTIVITY_SIZE as int)
}

/// The buffer positions can be used: the length field of the newest record
/// lies inside the buffer, and a wrapped range starts inside it.
pub open spec fn cyclic_ok(c: Seq<u8>, oldest: int, newest: int) -> bool {
    &&& newest + 3 < CARD_DRIVER_ACTIVITY_SIZE as int
    &&& cyclic_end(c, newest) < oldest ==> oldest <= CARD_DRIVER_ACTIVITY_SIZE as int
}

/// The daily records of the cyclic buffer `c` in order, from the oldest to
/// the end of the newest, unwrapping the buffer when they wrap around its end.
pub open spec fn uncycled(c: Seq<u8>, oldest: int, newest: int) -> Seq<u8> {
    let e = cyclic_end(c, newest);
    if e < oldest {
        c.subrange(oldest, c.len() as int) + c.subrange(0, e)
    } else {
        c.subrange(oldest, e)
    }
}

/// CardDriverActivity (appendix 2.17): pointers to the oldest and the newest
/// daily record in a cyclic buffer of CardActivityDailyRecords.
#[derive(Debug)]
pub struct CardDriverActivity {
    pub activity_pointer_oldest_day_record: u16,
    pub activity_pointer_newest_record: u16,
    pub activity_daily_records: Vec<CardActivityDailyRecord>,
}

impl CardDriverActivity {
    /// Reads the bytes of the cyclic buffer in record order.
    fn read_cyclic_data(cyclic_data: &[u8], oldest_record: usize, newest_record: usize) -> (r: Vec<u8>)
        requires
            cyclic_data@.len() == CARD_DRIVER_ACTIVITY_SIZE,
            cyclic_ok(cyclic_data@, oldest_record as int, newest_record as int),
        ensures
            r@ == uncycled(cyclic_data@, oldest_record as int, newest_record as int),
    {
        let newest_record_length = cyclic_data[newest_record + 2] as usize * 256
            + cyclic_data[newest_record + 3] as usize;
        let end_of_newest_record = (newest_record + newest_record_length)
            % CARD_DRIVER_ACTIVITY_SIZE;
        if end_of_newest_record < oldest_record {
            let mut data = slice_to_vec(
                slice_subrange(cyclic_data, oldest_record, CARD_DRIVER_ACTIVITY_SIZE),
            );
            let mut tail = slice_to_vec(slice_subrange(cyclic_data, 0, end_of_newest_record));
            data.append(&mut tail);
            data
        } else {
            slice_to_vec(slice_subrange(cyclic_data, oldest_record, end_of_newest_record))
        }
    }

    /// Reads daily records one after another until the data ends or a record
    /// cannot be read.
    fn parse_daily_records(data: &[u8]) -> (r: Vec<CardActivityDailyRecord>)
        ensures
            daily_records_as(data@, r@),
    {
        let mut cursor = Cursor::new(data);
        let mut records: Vec<CardActivityDailyRecord> = Vec::new();
        let ghost d = data@;
        let ghost mut starts: Seq<int> = Seq::empty();
        while cursor.has_remaining()
            invariant_except_break
                daily_record_positions(d, 0) == starts + daily_record_positions(d, cursor.pos()),
            invariant
                cursor.data() == d,
                0 <= cursor.pos() <= d.len(),
                records.len() == starts.len(),
                forall|i: int|
                    0 <= i < records.len() ==> #[trigger] CardActivityDailyRecord::parsed_as(
                        d,
                        starts[i],
                        records@[i],
                    ),
            ensures
                daily_record_positions(d, 0) == starts,
            decreases d.len() - cursor.pos(),
        {
            let ghost p = cursor.pos();
            match CardActivityDailyRecord::parse(&mut cursor) {
                Ok(record) => {
                    let ghost before = records@;
                    records.push(record);
                    let _ = cursor.remaining();
                    proof {
                        assert(daily_record_positions(d, p) == seq![p] + daily_record_positions(
                            d,
                            cursor.pos(),
                        ));
                        assert(starts + daily_record_positions(d, p) =~= starts.push(p)
                            + daily_record_positions(d, cursor.pos()));
                        starts = starts.push(p);
                        assert forall|i: int|
                            0 <= i < records.len() implies #[trigger] CardActivityDailyRecord::parsed_as(
                            d,
                            starts[i],
                            records@[i],
                        ) by {
                            if i < before.len() {
                                assert(records@[i] == before[i]);
                            }
                        }
                    }
                },
                Err(_) => {
                    proof {
                        assert(daily_record_positions(d, p) =~= Seq::<int>::empty());
                        assert(starts + daily_record_positions(d, p) =~= starts);
                    }
                    break;
                },
            }
        }
        records
    }
}

impl CardDriverActivity {
    /// Reads a `CardDriverActivity` at the reader's position.
    pub fn parse(cursor: &mut Cursor) -> (res: Result<CardDriverActivity, ParseError>)
        ensures
            final(cursor).data() == old(cursor).data(),
            old(cursor).pos() <= final(cursor).pos(),
            final(cursor).pos() == CardDriverActivity::parse_end(old(cursor).data(), old(cursor).pos()),
            res is Ok <==> CardDriverActivity::parse_ok(old(cursor).data(), old(cursor).pos()),
            res matches Ok(v) ==> CardDriverActivity::parsed_as(old(cursor).data(), old(cursor).pos(), v),
            res matches Err(e) ==> e == CardDriverActivity::parse_err(old(cursor).data(), old(cursor).pos()),
    {
        let activity_pointer_oldest_day_record = cursor.read_u16_be()?;
        let activity_pointer_newest_record = cursor.read_u16_be()?;
        let cyclic_data = cursor.read_bytes(CARD_DRIVER_ACTIVITY_SIZE)?;
        let oldest = activity_pointer_oldest_day_record as usize;
        let newest = activity_pointer_newest_record as usize;
        if newest + 3 >= CARD_DRIVER_ACTIVITY_SIZE {
            return Err(ParseError::InvalidValue);
        }
        let newest_record_length = cyclic_data[newest + 2] as usize * 256
            + cyclic_data[newest + 3] as usize;
        let end_of_newest_record = (newest + newest_record_length) % CARD_DRIVER_ACTIVITY_SIZE;
        if end_of_newest_record < oldest && oldest > CARD_DRIVER_ACTIVITY_SIZE {
            return Err(ParseError::InvalidValue);
        }
        let uncycled_data = CardDriverActivity::read_cyclic_data(
            cyclic_data.as_slice(),
            oldest,
            newest,
        );
        let activity_daily_records = CardDriverActivity::parse_daily_records(
            uncycled_data.as_slice(),
        );
        Ok(
            CardDriverActivity {
                activity_pointer_oldest_day_record,
                activity_pointer_newest_record,
                activity_daily_records,
            },
        )
    }
}

impl Parse for CardDriverActivity {
    open spec fn parse_ok(d: Seq<u8>, p: int) -> bool {
        bytes_ok(d, p, 4 + CARD_DRIVER_ACTIVITY_SIZE as int) && cyclic_ok(
            d.subrange(p + 4, p + 4 + CARD_DRIVER_ACTIVITY_SIZE as int),
            be16(d, p),
            be16(d, p + 2),
        )
    }

    open spec fn parse_end(d: Seq<u8>, p: int) -> int {
        bytes_end(d, p, 4 + CARD_DRIVER_ACTIVITY_SIZE as int)
    }

    open spec fn parse_err(d: Seq<u8>, p: int) -> ParseError {
        if !bytes_ok(d, p, 4 + CARD_DRIVER_ACTIVITY_SIZE as int) {
            ParseError::UnexpectedEnd
        } else {
            ParseError::InvalidValue
        }
    }

    open spec fn parsed_as(d: Seq<u8>, p: int, v: CardDriverActivity) -> bool {
        &&& v.activity_pointer_oldest_day_record == be16(d, p)
        &&& v.activity_pointer_newest_record == be16(d, p + 2)
        &&& daily_records_as(
            uncycled(
                d.subrange(p + 4, p + 4 + CARD_DRIVER_ACTIVITY_SIZE as int),
                be16(d, p),
                be16(d, p + 2),
            ),
            v.activity_daily_records@,
        )
    }

    fn parse(cursor: &mut Cursor) -> (res: Result<CardDriverActivity, ParseError>) {
        CardDriverActivity::parse(cursor)
    }
}

} // verus!
