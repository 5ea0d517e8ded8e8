//! Reading a driver card file: a sequence of entries, each a file
//! identifier, a type byte (0 and 1 for a generation 1 file and its
//! signature, 2 and 3 for a generation 2 file and its signature), a length
//! and the file's bytes.
use crate::cursor::{be16, bytes_end, bytes_ok, Cursor, Parse, ParseDyn, ParseError};
use crate::dt::gen1::{
    CardControlActivityDataRecord, CardEventData, CardFaultData, CardIccIdentification,
    CardPlaceDailyWorkPeriod, CardVehiclesUsed, Certificate, DriverCardApplicationIdentification,
    Signature, SpecificConditions,
};
use crate::dt::gen2::{
    CardControlActivityDataRecordGen2, CardEventDataGen2, CardFaultDataGen2,
    CardIccIdentificationGen2, CardPlaceDailyWorkPeriodGen2, CardVehicleUnitsUsedGen2,
    CardVehiclesUsedGen2, CertificateGen2, DriverCardApplicationIdentificationGen2,
    GNSSAccumulatedDrivingGen2, SignatureGen2, SpecificConditionsGen2,
};
use crate::dt::{
    CardChipIdentification, CardDownload, CardDrivingLicenceInformation, CurrentUsage,
    DriverActivityData, Identification,
};
use vstd::prelude::*;
use vstd::slice::slice_to_vec;

verus! {

/// The bytes of the block whose length stands at `b`.
pub open spec fn card_block_data(d: Seq<u8>, b: int) -> Seq<u8> {
    d.subrange(b + 2, b + 2 + be16(d, b))
}

/// Where the reader stands after the block whose length stands at `b`,
/// whether or not it was read.
pub open spec fn card_block_end(d: Seq<u8>, b: int) -> int {
    if !bytes_ok(d, b, 2) {
        d.len() as int
    } else {
        bytes_end(d, b + 2, be16(d, b))
    }
}

/// The block at `b` is complete and its bytes read as a `T`.
#[verifier::opaque]
pub open spec fn card_block_ok<T: Parse>(d: Seq<u8>, b: int) -> bool {
    bytes_ok(d, b, 2) && bytes_ok(d, b + 2, be16(d, b)) && T::parse_ok(card_block_data(d, b), 0)
}

/// `v` is the `T` that the bytes of the block at `b` hold.
#[verifier::opaque]
pub open spec fn card_block_as<T: Parse>(d: Seq<u8>, b: int, v: T) -> bool {
    T::parsed_as(card_block_data(d, b), 0, v)
}

/// Like `card_block_ok`, for a `T` as long as its block.
#[verifier::opaque]
pub open spec fn dyn_card_block_ok<T: ParseDyn>(d: Seq<u8>, b: int) -> bool {
    bytes_ok(d, b, 2) && bytes_ok(d, b + 2, be16(d, b)) && T::dyn_ok(card_block_data(d, b), 0, be16(d, b))
}

/// Like `card_block_as`, for a `T` as long as its block.
#[verifier::opaque]
pub open spec fn dyn_card_block_as<T: ParseDyn>(d: Seq<u8>, b: int, v: T) -> bool {
    T::dyn_as(card_block_data(d, b), 0, be16(d, b), v)
}

/// The error of a read of the block at `b` that fails: the data ends
/// within it, or its bytes do not read as a `T`.
#[verifier::opaque]
pub open spec fn card_block_err<T: Parse>(d: Seq<u8>, b: int) -> ParseError {
    if !bytes_ok(d, b, 2) || !bytes_ok(d, b + 2, be16(d, b)) {
        ParseError::UnexpectedEnd
    } else {
        T::parse_err(card_block_data(d, b), 0)
    }
}

/// Like `card_block_err`, for a `T` as long as its block.
#[verifier::opaque]
pub open spec fn dyn_card_block_err<T: ParseDyn>(d: Seq<u8>, b: int) -> ParseError {
    if !bytes_ok(d, b, 2) || !bytes_ok(d, b + 2, be16(d, b)) {
        ParseError::UnexpectedEnd
    } else {
        T::dyn_err(card_block_data(d, b), 0, be16(d, b))
    }
}

/// A block of a card file: its length and what its bytes hold.
#[derive(Debug)]
pub struct CardBlock<T> {
    pub size: u16,
    pub data: T,
}

impl<T> CardBlock<T> {
    /// What the block holds.
    pub fn into_inner(self) -> (r: T)
        ensures
            r == self.data,
    {
        self.data
    }
}

impl<T: Parse> Parse for CardBlock<T> {
    open spec fn parse_ok(d: Seq<u8>, p: int) -> bool {
        card_block_ok::<T>(d, p)
    }

    open spec fn parse_end(d: Seq<u8>, p: int) -> int {
        card_block_end(d, p)
    }

    open spec fn parsed_as(d: Seq<u8>, p: int, v: CardBlock<T>) -> bool {
        v.size == be16(d, p) && card_block_as::<T>(d, p, v.data)
    }

    open spec fn parse_err(d: Seq<u8>, p: int) -> ParseError {
        card_block_err::<T>(d, p)
    }

    fn parse(cursor: &mut Cursor) -> (res: Result<CardBlock<T>, ParseError>) {
        proof {
            reveal(card_block_ok);
            reveal(card_block_as);
            reveal(card_block_err);
        }
        let size = cursor.read_u16_be()?;
        let mut inner = cursor.take_exact(size as usize)?;
        let data = T::parse(&mut inner)?;
        Ok(CardBlock { size, data })
    }
}

impl<T: ParseDyn> CardBlock<T> {
    /// Reads a block whose content is as long as the block.
    pub fn parse_dyn_size(cursor: &mut Cursor) -> (res: Result<CardBlock<T>, ParseError>)
        ensures
            final(cursor).data() == old(cursor).data(),
            old(cursor).pos() <= final(cursor).pos(),
            final(cursor).pos() == card_block_end(old(cursor).data(), old(cursor).pos()),
            res is Ok <==> dyn_card_block_ok::<T>(old(cursor).data(), old(cursor).pos()),
            res matches Ok(v) ==> v.size == be16(old(cursor).data(), old(cursor).pos())
                && dyn_card_block_as::<T>(old(cursor).data(), old(cursor).pos(), v.data),
            res matches Err(e) ==> e == dyn_card_block_err::<T>(old(cursor).data(), old(cursor).pos()),
    {
        proof {
            reveal(dyn_card_block_ok);
            reveal(dyn_card_block_as);
            reveal(dyn_card_block_err);
        }
        let size = cursor.read_u16_be()?;
        let mut inner = cursor.take_exact(size as usize)?;
        let data = T::parse_dyn_size(&mut inner, size as usize)?;
        Ok(CardBlock { size, data })
    }
}

/// The entries that the parser reads: a file identifier and a type byte.
pub open spec fn card_tag_known(s: int, f: int) -> bool {
    (s == 0x0002 && f == 0)
        || (s == 0x0005 && f == 0)
        || (s == 0x0501 && f == 0)
        || (s == 0x0501 && f == 1)
        || (s == 0xC100 && f == 0)
        || (s == 0xC108 && f == 0)
        || (s == 0x0520 && f == 0)
        || (s == 0x0520 && f == 1)
        || (s == 0x050E && f == 0)
        || (s == 0x050E && f == 1)
        || (s == 0x0521 && f == 0)
        || (s == 0x0521 && f == 1)
        || (s == 0x0502 && f == 0)
        || (s == 0x0502 && f == 1)
        || (s == 0x0503 && f == 0)
        || (s == 0x0503 && f == 1)
        || (s == 0x0504 && f == 0)
        || (s == 0x0504 && f == 1)
        || (s == 0x0505 && f == 0)
        || (s == 0x0505 && f == 1)
        || (s == 0x0506 && f == 0)
        || (s == 0x0506 && f == 1)
        || (s == 0x0507 && f == 0)
        || (s == 0x0507 && f == 1)
        || (s == 0x0508 && f == 0)
        || (s == 0x0508 && f == 1)
        || (s == 0x0522 && f == 0)
        || (s == 0x0522 && f == 1)
        || (s == 0x0002 && f == 2)
        || (s == 0x0005 && f == 2)
        || (s == 0x0501 && f == 2)
        || (s == 0x0501 && f == 3)
        || (s == 0xC101 && f == 2)
        || (s == 0xC108 && f == 2)
        || (s == 0xC109 && f == 2)
        || (s == 0x0520 && f == 2)
        || (s == 0x0520 && f == 3)
        || (s == 0x050E && f == 2)
        || (s == 0x050E && f == 3)
        || (s == 0x0521 && f == 2)
        || (s == 0x0521 && f == 3)
        || (s == 0x0502 && f == 2)
        || (s == 0x0502 && f == 3)
        || (s == 0x0503 && f == 2)
        || (s == 0x0503 && f == 3)
        || (s == 0x0504 && f == 2)
        || (s == 0x0504 && f == 3)
        || (s == 0x0505 && f == 2)
        || (s == 0x0505 && f == 3)
        || (s == 0x0506 && f == 2)
        || (s == 0x0506 && f == 3)
        || (s == 0x0507 && f == 2)
        || (s == 0x0507 && f == 3)
        || (s == 0x0508 && f == 2)
        || (s == 0x0508 && f == 3)
        || (s == 0x0522 && f == 2)
        || (s == 0x0522 && f == 3)
        || (s == 0x0523 && f == 2)
        || (s == 0x0523 && f == 3)
        || (s == 0x0524 && f == 2)
        || (s == 0x0524 && f == 3)
}

/// The entries that may occur only once in a card file.
pub open spec fn card_tag_unique(s: int, f: int) -> bool {
    (s == 0x0002 && f == 0)
        || (s == 0x0005 && f == 0)
        || (s == 0x0501 && f == 0)
        || (s == 0x0520 && f == 0)
        || (s == 0x0521 && f == 0)
        || (s == 0x0502 && f == 0)
        || (s == 0x0503 && f == 0)
        || (s == 0x0504 && f == 0)
        || (s == 0x0505 && f == 0)
        || (s == 0x0506 && f == 0)
        || (s == 0x0508 && f == 0)
        || (s == 0x0522 && f == 0)
        || (s == 0x0002 && f == 2)
        || (s == 0x0005 && f == 2)
        || (s == 0x0501 && f == 2)
        || (s == 0x0501 && f == 3)
        || (s == 0xC101 && f == 2)
        || (s == 0xC108 && f == 2)
        || (s == 0xC109 && f == 2)
        || (s == 0x0520 && f == 2)
        || (s == 0x0520 && f == 3)
        || (s == 0x050E && f == 3)
        || (s == 0x0521 && f == 2)
        || (s == 0x0521 && f == 3)
        || (s == 0x0502 && f == 2)
        || (s == 0x0502 && f == 3)
        || (s == 0x0503 && f == 2)
        || (s == 0x0503 && f == 3)
        || (s == 0x0504 && f == 2)
        || (s == 0x0504 && f == 3)
        || (s == 0x0505 && f == 2)
        || (s == 0x0505 && f == 3)
        || (s == 0x0506 && f == 2)
        || (s == 0x0506 && f == 3)
        || (s == 0x0507 && f == 3)
        || (s == 0x0508 && f == 2)
        || (s == 0x0508 && f == 3)
        || (s == 0x0522 && f == 2)
        || (s == 0x0522 && f == 3)
        || (s == 0x0523 && f == 2)
        || (s == 0x0523 && f == 3)
        || (s == 0x0524 && f == 2)
        || (s == 0x0524 && f == 3)
}

/// The block of the known entry whose header is at `q` reads as the file that the entry names.
pub open spec fn card_entry_ok(d: Seq<u8>, q: int) -> bool {
    let s = be16(d, q);
    let f = d[q + 2];
    if s == 0x0002 && f == 0 {
        card_block_ok::<CardIccIdentification>(d, q + 3)
    } else if s == 0x0005 && f == 0 {
        card_block_ok::<CardChipIdentification>(d, q + 3)
    } else if s == 0x0501 && f == 0 {
        card_block_ok::<DriverCardApplicationIdentification>(d, q + 3)
    } else if s == 0x0501 && f == 1 {
        card_block_ok::<Signature>(d, q + 3)
    } else if s == 0xC100 && f == 0 {
        card_block_ok::<Certificate>(d, q + 3)
    } else if s == 0xC108 && f == 0 {
        card_block_ok::<Certificate>(d, q + 3)
    } else if s == 0x0520 && f == 0 {
        card_block_ok::<Identification>(d, q + 3)
    } else if s == 0x0520 && f == 1 {
        card_block_ok::<Signature>(d, q + 3)
    } else if s == 0x050E && f == 0 {
        card_block_ok::<CardDownload>(d, q + 3)
    } else if s == 0x050E && f == 1 {
        card_block_ok::<Signature>(d, q + 3)
    } else if s == 0x0521 && f == 0 {
        card_block_ok::<CardDrivingLicenceInformation>(d, q + 3)
    } else if s == 0x0521 && f == 1 {
        card_block_ok::<Signature>(d, q + 3)
    } else if s == 0x0502 && f == 0 {
        dyn_card_block_ok::<CardEventData>(d, q + 3)
    } else if s == 0x0502 && f == 1 {
        card_block_ok::<Signature>(d, q + 3)
    } else if s == 0x0503 && f == 0 {
        dyn_card_block_ok::<CardFaultData>(d, q + 3)
    } else if s == 0x0503 && f == 1 {
        card_block_ok::<Signature>(d, q + 3)
    } else if s == 0x0504 && f == 0 {
        card_block_ok::<DriverActivityData>(d, q + 3)
    } else if s == 0x0504 && f == 1 {
        card_block_ok::<Signature>(d, q + 3)
    } else if s == 0x0505 && f == 0 {
        dyn_card_block_ok::<CardVehiclesUsed>(d, q + 3)
    } else if s == 0x0505 && f == 1 {
        card_block_ok::<Signature>(d, q + 3)
    } else if s == 0x0506 && f == 0 {
        dyn_card_block_ok::<CardPlaceDailyWorkPeriod>(d, q + 3)
    } else if s == 0x0506 && f == 1 {
        card_block_ok::<Signature>(d, q + 3)
    } else if s == 0x0507 && f == 0 {
        card_block_ok::<CurrentUsage>(d, q + 3)
    } else if s == 0x0507 && f == 1 {
        card_block_ok::<Signature>(d, q + 3)
    } else if s == 0x0508 && f == 0 {
        card_block_ok::<CardControlActivityDataRecord>(d, q + 3)
    } else if s == 0x0508 && f == 1 {
        card_block_ok::<Signature>(d, q + 3)
    } else if s == 0x0522 && f == 0 {
        dyn_card_block_ok::<SpecificConditions>(d, q + 3)
    } else if s == 0x0522 && f == 1 {
        card_block_ok::<Signature>(d, q + 3)
    } else if s == 0x0002 && f == 2 {
        card_block_ok::<CardIccIdentificationGen2>(d, q + 3)
    } else if s == 0x0005 && f == 2 {
        card_block_ok::<CardChipIdentification>(d, q + 3)
    } else if s == 0x0501 && f == 2 {
        card_block_ok::<DriverCardApplicationIdentificationGen2>(d, q + 3)
    } else if s == 0x0501 && f == 3 {
        dyn_card_block_ok::<SignatureGen2>(d, q + 3)
    } else if s == 0xC101 && f == 2 {
        dyn_card_block_ok::<CertificateGen2>(d, q + 3)
    } else if s == 0xC108 && f == 2 {
        dyn_card_block_ok::<CertificateGen2>(d, q + 3)
    } else if s == 0xC109 && f == 2 {
        dyn_card_block_ok::<CertificateGen2>(d, q + 3)
    } else if s == 0x0520 && f == 2 {
        card_block_ok::<Identification>(d, q + 3)
    } else if s == 0x0520 && f == 3 {
        dyn_card_block_ok::<SignatureGen2>(d, q + 3)
    } else if s == 0x050E && f == 2 {
        card_block_ok::<CardDownload>(d, q + 3)
    } else if s == 0x050E && f == 3 {
        dyn_card_block_ok::<SignatureGen2>(d, q + 3)
    } else if s == 0x0521 && f == 2 {
        card_block_ok::<CardDrivingLicenceInformation>(d, q + 3)
    } else if s == 0x0521 && f == 3 {
        dyn_card_block_ok::<SignatureGen2>(d, q + 3)
    } else if s == 0x0502 && f == 2 {
        dyn_card_block_ok::<CardEventDataGen2>(d, q + 3)
    } else if s == 0x0502 && f == 3 {
        dyn_card_block_ok::<SignatureGen2>(d, q + 3)
    } else if s == 0x0503 && f == 2 {
        card_block_ok::<CardFaultDataGen2>(d, q + 3)
    } else if s == 0x0503 && f == 3 {
        dyn_card_block_ok::<SignatureGen2>(d, q + 3)
    } else if s == 0x0504 && f == 2 {
        card_block_ok::<DriverActivityData>(d, q + 3)
    } else if s == 0x0504 && f == 3 {
        dyn_card_block_ok::<SignatureGen2>(d, q + 3)
    } else if s == 0x0505 && f == 2 {
        dyn_card_block_ok::<CardVehiclesUsedGen2>(d, q + 3)
    } else if s == 0x0505 && f == 3 {
        dyn_card_block_ok::<SignatureGen2>(d, q + 3)
    } else if s == 0x0506 && f == 2 {
        dyn_card_block_ok::<CardPlaceDailyWorkPeriodGen2>(d, q + 3)
    } else if s == 0x0506 && f == 3 {
        dyn_card_block_ok::<SignatureGen2>(d, q + 3)
    } else if s == 0x0507 && f == 2 {
        card_block_ok::<CurrentUsage>(d, q + 3)
    } else if s == 0x0507 && f == 3 {
        dyn_card_block_ok::<SignatureGen2>(d, q + 3)
    } else if s == 0x0508 && f == 2 {
        card_block_ok::<CardControlActivityDataRecordGen2>(d, q + 3)
    } else if s == 0x0508 && f == 3 {
        dyn_card_block_ok::<SignatureGen2>(d, q + 3)
    } else if s == 0x0522 && f == 2 {
        dyn_card_block_ok::<SpecificConditionsGen2>(d, q + 3)
    } else if s == 0x0522 && f == 3 {
        dyn_card_block_ok::<SignatureGen2>(d, q + 3)
    } else if s == 0x0523 && f == 2 {
        dyn_card_block_ok::<CardVehicleUnitsUsedGen2>(d, q + 3)
    } else if s == 0x0523 && f == 3 {
        dyn_card_block_ok::<SignatureGen2>(d, q + 3)
    } else if s == 0x0524 && f == 2 {
        dyn_card_block_ok::<GNSSAccumulatedDrivingGen2>(d, q + 3)
    } else if s == 0x0524 && f == 3 {
        dyn_card_block_ok::<SignatureGen2>(d, q + 3)
    } else {
        false
    }
}

/// The error of a read of the block of the known entry whose header is at `q` that fails.
pub open spec fn card_entry_err(d: Seq<u8>, q: int) -> ParseError {
    let s = be16(d, q);
    let f = d[q + 2];
    if s == 0x0002 && f == 0 {
        card_block_err::<CardIccIdentification>(d, q + 3)
    } else if s == 0x0005 && f == 0 {
        card_block_err::<CardChipIdentification>(d, q + 3)
    } else if s == 0x0501 && f == 0 {
        card_block_err::<DriverCardApplicationIdentification>(d, q + 3)
    } else if s == 0x0501 && f == 1 {
        card_block_err::<Signature>(d, q + 3)
    } else if s == 0xC100 && f == 0 {
        card_block_err::<Certificate>(d, q + 3)
    } else if s == 0xC108 && f == 0 {
        card_block_err::<Certificate>(d, q + 3)
    } else if s == 0x0520 && f == 0 {
        card_block_err::<Identification>(d, q + 3)
    } else if s == 0x0520 && f == 1 {
        card_block_err::<Signature>(d, q + 3)
    } else if s == 0x050E && f == 0 {
        card_block_err::<CardDownload>(d, q + 3)
    } else if s == 0x050E && f == 1 {
        card_block_err::<Signature>(d, q + 3)
    } else if s == 0x0521 && f == 0 {
        card_block_err::<CardDrivingLicenceInformation>(d, q + 3)
    } else if s == 0x0521 && f == 1 {
        card_block_err::<Signature>(d, q + 3)
    } else if s == 0x0502 && f == 0 {
        dyn_card_block_err::<CardEventData>(d, q + 3)
    } else if s == 0x0502 && f == 1 {
        card_block_err::<Signature>(d, q + 3)
    } else if s == 0x0503 && f == 0 {
        dyn_card_block_err::<CardFaultData>(d, q + 3)
    } else if s == 0x0503 && f == 1 {
        card_block_err::<Signature>(d, q + 3)
    } else if s == 0x0504 && f == 0 {
        card_block_err::<DriverActivityData>(d, q + 3)
    } else if s == 0x0504 && f == 1 {
        card_block_err::<Signature>(d, q + 3)
    } else if s == 0x0505 && f == 0 {
        dyn_card_block_err::<CardVehiclesUsed>(d, q + 3)
    } else if s == 0x0505 && f == 1 {
        card_block_err::<Signature>(d, q + 3)
    } else if s == 0x0506 && f == 0 {
        dyn_card_block_err::<CardPlaceDailyWorkPeriod>(d, q + 3)
    } else if s == 0x0506 && f == 1 {
        card_block_err::<Signature>(d, q + 3)
    } else if s == 0x0507 && f == 0 {
        card_block_err::<CurrentUsage>(d, q + 3)
    } else if s == 0x0507 && f == 1 {
        card_block_err::<Signature>(d, q + 3)
    } else if s == 0x0508 && f == 0 {
        card_block_err::<CardControlActivityDataRecord>(d, q + 3)
    } else if s == 0x0508 && f == 1 {
        card_block_err::<Signature>(d, q + 3)
    } else if s == 0x0522 && f == 0 {
        dyn_card_block_err::<SpecificConditions>(d, q + 3)
    } else if s == 0x0522 && f == 1 {
        card_block_err::<Signature>(d, q + 3)
    } else if s == 0x0002 && f == 2 {
        card_block_err::<CardIccIdentificationGen2>(d, q + 3)
    } else if s == 0x0005 && f == 2 {
        card_block_err::<CardChipIdentification>(d, q + 3)
    } else if s == 0x0501 && f == 2 {
        card_block_err::<DriverCardApplicationIdentificationGen2>(d, q + 3)
    } else if s == 0x0501 && f == 3 {
        dyn_card_block_err::<SignatureGen2>(d, q + 3)
    } else if s == 0xC101 && f == 2 {
        dyn_card_block_err::<CertificateGen2>(d, q + 3)
    } else if s == 0xC108 && f == 2 {
        dyn_card_block_err::<CertificateGen2>(d, q + 3)
    } else if s == 0xC109 && f == 2 {
        dyn_card_block_err::<CertificateGen2>(d, q + 3)
    } else if s == 0x0520 && f == 2 {
        card_block_err::<Identification>(d, q + 3)
    } else if s == 0x0520 && f == 3 {
        dyn_card_block_err::<SignatureGen2>(d, q + 3)
    } else if s == 0x050E && f == 2 {
        card_block_err::<CardDownload>(d, q + 3)
    } else if s == 0x050E && f == 3 {
        dyn_card_block_err::<SignatureGen2>(d, q + 3)
    } else if s == 0x0521 && f == 2 {
        card_block_err::<CardDrivingLicenceInformation>(d, q + 3)
    } else if s == 0x0521 && f == 3 {
        dyn_card_block_err::<SignatureGen2>(d, q + 3)
    } else if s == 0x0502 && f == 2 {
        dyn_card_block_err::<CardEventDataGen2>(d, q + 3)
    } else if s == 0x0502 && f == 3 {
        dyn_card_block_err::<SignatureGen2>(d, q + 3)
    } else if s == 0x0503 && f == 2 {
        card_block_err::<CardFaultDataGen2>(d, q + 3)
    } else if s == 0x0503 && f == 3 {
        dyn_card_block_err::<SignatureGen2>(d, q + 3)
    } else if s == 0x0504 && f == 2 {
        card_block_err::<DriverActivityData>(d, q + 3)
    } else if s == 0x0504 && f == 3 {
        dyn_card_block_err::<SignatureGen2>(d, q + 3)
    } else if s == 0x0505 && f == 2 {
        dyn_card_block_err::<CardVehiclesUsedGen2>(d, q + 3)
    } else if s == 0x0505 && f == 3 {
        dyn_card_block_err::<SignatureGen2>(d, q + 3)
    } else if s == 0x0506 && f == 2 {
        dyn_card_block_err::<CardPlaceDailyWorkPeriodGen2>(d, q + 3)
    } else if s == 0x0506 && f == 3 {
        dyn_card_block_err::<SignatureGen2>(d, q + 3)
    } else if s == 0x0507 && f == 2 {
        card_block_err::<CurrentUsage>(d, q + 3)
    } else if s == 0x0507 && f == 3 {
        dyn_card_block_err::<SignatureGen2>(d, q + 3)
    } else if s == 0x0508 && f == 2 {
        card_block_err::<CardControlActivityDataRecordGen2>(d, q + 3)
    } else if s == 0x0508 && f == 3 {
        dyn_card_block_err::<SignatureGen2>(d, q + 3)
    } else if s == 0x0522 && f == 2 {
        dyn_card_block_err::<SpecificConditionsGen2>(d, q + 3)
    } else if s == 0x0522 && f == 3 {
        dyn_card_block_err::<SignatureGen2>(d, q + 3)
    } else if s == 0x0523 && f == 2 {
        dyn_card_block_err::<CardVehicleUnitsUsedGen2>(d, q + 3)
    } else if s == 0x0523 && f == 3 {
        dyn_card_block_err::<SignatureGen2>(d, q + 3)
    } else if s == 0x0524 && f == 2 {
        dyn_card_block_err::<GNSSAccumulatedDrivingGen2>(d, q + 3)
    } else if s == 0x0524 && f == 3 {
        dyn_card_block_err::<SignatureGen2>(d, q + 3)
    } else {
        ParseError::InvalidValue
    }
}

/// The header at `q` introduces an entry that the parser reads.
pub open spec fn card_entry_read(d: Seq<u8>, q: int) -> bool {
    0 <= q && bytes_ok(d, q, 3) && card_tag_known(be16(d, q), d[q + 2] as int)
}

/// Where the entry after the one at `q` begins.
pub open spec fn card_next(d: Seq<u8>, q: int) -> int {
    card_block_end(d, q + 3)
}

/// The number of entries read from the entry at `q` on.
pub open spec fn card_scan(d: Seq<u8>, q: int) -> nat
    decreases d.len() - q,
{
    if card_entry_read(d, q) && q < card_next(d, q) {
        1 + card_scan(d, card_next(d, q))
    } else {
        0
    }
}

/// The number of entries read: up to the end of the data or the first
/// header that names no file the parser reads.
pub open spec fn card_count(d: Seq<u8>) -> nat {
    card_scan(d, 0)
}

/// Where the header of entry `k` stands.
pub open spec fn card_entry_pos(d: Seq<u8>, k: nat) -> int
    decreases k,
{
    if k == 0 {
        0
    } else {
        card_next(d, card_entry_pos(d, (k - 1) as nat))
    }
}

/// The header position of the last of the first `k` entries that names file `s` of type `f`.
pub open spec fn card_last_entry(d: Seq<u8>, k: nat, s: int, f: int) -> Option<int>
    decreases k,
{
    if k == 0 {
        None
    } else {
        let q = card_entry_pos(d, (k - 1) as nat);
        if be16(d, q) == s && d[q + 2] == f {
            Some(q)
        } else {
            card_last_entry(d, (k - 1) as nat, s, f)
        }
    }
}

/// The entry at `q`, the `k`-th, repeats a file that may occur only once.
pub open spec fn card_dup(d: Seq<u8>, k: nat, q: int) -> bool {
    card_tag_unique(be16(d, q), d[q + 2] as int) && card_last_entry(
        d,
        k,
        be16(d, q),
        d[q + 2] as int,
    ) is Some
}

/// The first `k` entries read and none repeats a file that may occur only once.
pub open spec fn card_prefix_ok(d: Seq<u8>, k: nat) -> bool
    decreases k,
{
    if k == 0 {
        true
    } else {
        let q = card_entry_pos(d, (k - 1) as nat);
        card_prefix_ok(d, (k - 1) as nat) && card_entry_ok(d, q) && !card_dup(d, (k - 1) as nat, q)
    }
}

/// The error of the entry at `q`, the `k`-th, when it does not read: a
/// repeated file that may occur only once, or the error of its block.
pub open spec fn card_entry_fail(d: Seq<u8>, k: nat, q: int) -> ParseError {
    if card_dup(d, k, q) {
        ParseError::DuplicateBlock
    } else {
        card_entry_err(d, q)
    }
}

/// The error of the first of the first `k` entries that does not read, if any.
pub open spec fn card_err_upto(d: Seq<u8>, k: nat) -> Option<ParseError>
    decreases k,
{
    if k == 0 {
        None
    } else {
        match card_err_upto(d, (k - 1) as nat) {
            Some(e) => Some(e),
            None => {
                let q = card_entry_pos(d, (k - 1) as nat);
                if card_entry_ok(d, q) && !card_dup(d, (k - 1) as nat, q) {
                    None
                } else {
                    Some(card_entry_fail(d, (k - 1) as nat, q))
                }
            },
        }
    }
}

/// The file `s` of type `f` is among the entries read.
pub open spec fn card_present(d: Seq<u8>, s: int, f: int) -> bool {
    card_last_entry(d, card_count(d), s, f) is Some
}

/// `v` is the file of the last entry, among the first `k`, that names file `s` of type `f`, if any.
pub open spec fn card_slot_as<T: Parse>(d: Seq<u8>, k: nat, s: int, f: int, v: Option<T>) -> bool {
    match card_last_entry(d, k, s, f) {
        None => v is None,
        Some(q) => v matches Some(x) && card_block_as::<T>(d, q + 3, x),
    }
}

/// Like `card_slot_as`, for files as long as their blocks.
pub open spec fn dyn_card_slot_as<T: ParseDyn>(d: Seq<u8>, k: nat, s: int, f: int, v: Option<T>) -> bool {
    match card_last_entry(d, k, s, f) {
        None => v is None,
        Some(q) => v matches Some(x) && dyn_card_block_as::<T>(d, q + 3, x),
    }
}

/// Every file of generation 1 that a card file must hold is among its entries.
pub open spec fn card_gen1_complete(d: Seq<u8>) -> bool {
    card_present(d, 0x0002, 0)
        && card_present(d, 0x0005, 0)
        && card_present(d, 0x0501, 0)
        && card_present(d, 0x0501, 1)
        && card_present(d, 0xC100, 0)
        && card_present(d, 0xC108, 0)
        && card_present(d, 0x0520, 0)
        && card_present(d, 0x0520, 1)
        && card_present(d, 0x0502, 0)
        && card_present(d, 0x0502, 1)
        && card_present(d, 0x0503, 0)
        && card_present(d, 0x0503, 1)
        && card_present(d, 0x0504, 0)
        && card_present(d, 0x0504, 1)
        && card_present(d, 0x0505, 0)
        && card_present(d, 0x0505, 1)
        && card_present(d, 0x0506, 0)
        && card_present(d, 0x0506, 1)
        && card_present(d, 0x0508, 0)
        && card_present(d, 0x0508, 1)
        && card_present(d, 0x0522, 0)
        && card_present(d, 0x0522, 1)
}

/// Every file of generation 2 that a card file must hold is among its entries.
pub open spec fn card_gen2_complete(d: Seq<u8>) -> bool {
    card_present(d, 0x0002, 2)
        && card_present(d, 0x0005, 2)
        && card_present(d, 0x0501, 2)
        && card_present(d, 0x0501, 3)
        && card_present(d, 0xC101, 2)
        && card_present(d, 0xC108, 2)
        && card_present(d, 0xC109, 2)
        && card_present(d, 0x0520, 2)
        && card_present(d, 0x0520, 3)
        && card_present(d, 0x0502, 2)
        && card_present(d, 0x0502, 3)
        && card_present(d, 0x0503, 2)
        && card_present(d, 0x0503, 3)
        && card_present(d, 0x0504, 2)
        && card_present(d, 0x0504, 3)
        && card_present(d, 0x0505, 2)
        && card_present(d, 0x0505, 3)
        && card_present(d, 0x0506, 2)
        && card_present(d, 0x0506, 3)
        && card_present(d, 0x0508, 2)
        && card_present(d, 0x0508, 3)
        && card_present(d, 0x0522, 2)
        && card_present(d, 0x0522, 3)
        && card_present(d, 0x0523, 2)
        && card_present(d, 0x0523, 3)
        && card_present(d, 0x0524, 2)
        && card_present(d, 0x0524, 3)
}

/// The card file `d` reads: every entry read reads, none repeats a file that
/// may occur only once, the data does not stop inside a header, the
/// generation 1 files are complete, and so are the generation 2 files when
/// the generation 2 chip identification is there.
pub open spec fn card_parse_ok(d: Seq<u8>) -> bool {
    let k = card_count(d);
    let s = card_entry_pos(d, k);
    &&& card_prefix_ok(d, k)
    &&& (s >= d.len() || bytes_ok(d, s, 3))
    &&& card_gen1_complete(d)
    &&& (card_present(d, 0x0002, 2) ==> card_gen2_complete(d))
}

/// The error of a card file that does not read: that of the first entry
/// that does not read; else `UnexpectedEnd` where the data stops inside a
/// header; else `MissingBlock`, for a file that a card must hold.
pub open spec fn card_parse_err(d: Seq<u8>) -> ParseError {
    let k = card_count(d);
    let s = card_entry_pos(d, k);
    match card_err_upto(d, k) {
        Some(e) => e,
        None => if !(s >= d.len() || bytes_ok(d, s, 3)) {
            ParseError::UnexpectedEnd
        } else {
            ParseError::MissingBlock
        },
    }
}

/// The files of generation 1 of a driver card; those a card need not hold are optional.
#[derive(Debug)]
pub struct CardGen1Blocks {
    pub card_icc_identification: CardIccIdentification,
    pub card_chip_identification: CardChipIdentification,
    pub application_identification: DriverCardApplicationIdentification,
    pub application_identification_signature: Signature,
    pub card_certificate: Certificate,
    pub member_state_certificate: Certificate,
    pub identification: Identification,
    pub identification_signature: Signature,
    pub card_download: Option<CardDownload>,
    pub card_download_signature: Option<Signature>,
    pub driver_licence_info: Option<CardDrivingLicenceInformation>,
    pub driver_licence_info_signature: Option<Signature>,
    pub events_data: CardEventData,
    pub events_data_signature: Signature,
    pub faults_data: CardFaultData,
    pub faults_data_signature: Signature,
    pub driver_activity_data: DriverActivityData,
    pub driver_activity_data_signature: Signature,
    pub vehicles_used: CardVehiclesUsed,
    pub vehicles_used_signature: Signature,
    pub places: CardPlaceDailyWorkPeriod,
    pub places_signature: Signature,
    pub current_usage: Option<CurrentUsage>,
    pub current_usage_signature: Option<Signature>,
    pub control_activity_data: CardControlActivityDataRecord,
    pub control_activity_data_signature: Signature,
    pub specific_conditions: SpecificConditions,
    pub specific_conditions_signature: Signature,
}

/// The files of generation 2 of a driver card; those a card need not hold are optional.
#[derive(Debug)]
pub struct CardGen2Blocks {
    pub card_icc_identification: CardIccIdentificationGen2,
    pub card_chip_identification: CardChipIdentification,
    pub application_identification: DriverCardApplicationIdentificationGen2,
    pub application_identification_signature: SignatureGen2,
    pub card_sign_certificate: CertificateGen2,
    pub ca_certificate: CertificateGen2,
    pub link_certificate: CertificateGen2,
    pub identification: Identification,
    pub identification_signature: SignatureGen2,
    pub card_download: Option<CardDownload>,
    pub card_download_signature: Option<SignatureGen2>,
    pub driver_licence_info: Option<CardDrivingLicenceInformation>,
    pub driver_licence_info_signature: Option<SignatureGen2>,
    pub events_data: CardEventDataGen2,
    pub events_data_signature: SignatureGen2,
    pub faults_data: CardFaultDataGen2,
    pub faults_data_signature: SignatureGen2,
    pub driver_activity_data: DriverActivityData,
    pub driver_activity_data_signature: SignatureGen2,
    pub vehicles_used: CardVehiclesUsedGen2,
    pub vehicles_used_signature: SignatureGen2,
    pub places: CardPlaceDailyWorkPeriodGen2,
    pub places_signature: SignatureGen2,
    pub current_usage: Option<CurrentUsage>,
    pub current_usage_signature: Option<SignatureGen2>,
    pub control_activity_data: CardControlActivityDataRecordGen2,
    pub control_activity_data_signature: SignatureGen2,
    pub specific_conditions: SpecificConditionsGen2,
    pub specific_conditions_signature: SignatureGen2,
    pub vehicle_units_used: CardVehicleUnitsUsedGen2,
    pub vehicle_units_used_signature: SignatureGen2,
    pub gnss_accumulated_driving: GNSSAccumulatedDrivingGen2,
    pub gnss_places_signature: SignatureGen2,
}

/// The files that version 2 of generation 2 adds to a driver card.
#[derive(Debug)]
pub struct CardGen2V2Blocks {
    pub card_icc_identification: CardIccIdentificationGen2,
}

/// The files of a driver card: those of generation 1, and those of
/// generation 2 when the card has them.
#[derive(Debug)]
pub enum CardData {
    Gen1 { gen1_blocks: CardGen1Blocks },
    Gen2 { gen1_blocks: CardGen1Blocks, gen2_blocks: CardGen2Blocks },
    Gen2V2 {
        gen1_blocks: CardGen1Blocks,
        gen2_blocks: CardGen2Blocks,
        gen2v2_blocks: CardGen2V2Blocks,
    },
}

/// `b` holds the files of the entries of `d`: for each, the last entry that names it.
pub open spec fn card_gen1_blocks_as(d: Seq<u8>, b: CardGen1Blocks) -> bool {
    let k = card_count(d);
    card_slot_as::<CardIccIdentification>(d, k, 0x0002, 0, Some(b.card_icc_identification))
        && card_slot_as::<CardChipIdentification>(d, k, 0x0005, 0, Some(b.card_chip_identification))
        && card_slot_as::<DriverCardApplicationIdentification>(d, k, 0x0501, 0, Some(b.application_identification))
        && card_slot_as::<Signature>(d, k, 0x0501, 1, Some(b.application_identification_signature))
        && card_slot_as::<Certificate>(d, k, 0xC100, 0, Some(b.card_certificate))
        && card_slot_as::<Certificate>(d, k, 0xC108, 0, Some(b.member_state_certificate))
        && card_slot_as::<Identification>(d, k, 0x0520, 0, Some(b.identification))
        && card_slot_as::<Signature>(d, k, 0x0520, 1, Some(b.identification_signature))
        && card_slot_as::<CardDownload>(d, k, 0x050E, 0, b.card_download)
        && card_slot_as::<Signature>(d, k, 0x050E, 1, b.card_download_signature)
        && card_slot_as::<CardDrivingLicenceInformation>(d, k, 0x0521, 0, b.driver_licence_info)
        && card_slot_as::<Signature>(d, k, 0x0521, 1, b.driver_licence_info_signature)
        && dyn_card_slot_as::<CardEventData>(d, k, 0x0502, 0, Some(b.events_data))
        && card_slot_as::<Signature>(d, k, 0x0502, 1, Some(b.events_data_signature))
        && dyn_card_slot_as::<CardFaultData>(d, k, 0x0503, 0, Some(b.faults_data))
        && card_slot_as::<Signature>(d, k, 0x0503, 1, Some(b.faults_data_signature))
        && card_slot_as::<DriverActivityData>(d, k, 0x0504, 0, Some(b.driver_activity_data))
        && card_slot_as::<Signature>(d, k, 0x0504, 1, Some(b.driver_activity_data_signature))
        && dyn_card_slot_as::<CardVehiclesUsed>(d, k, 0x0505, 0, Some(b.vehicles_used))
        && card_slot_as::<Signature>(d, k, 0x0505, 1, Some(b.vehicles_used_signature))
        && dyn_card_slot_as::<CardPlaceDailyWorkPeriod>(d, k, 0x0506, 0, Some(b.places))
        && card_slot_as::<Signature>(d, k, 0x0506, 1, Some(b.places_signature))
        && card_slot_as::<CurrentUsage>(d, k, 0x0507, 0, b.current_usage)
        && card_slot_as::<Signature>(d, k, 0x0507, 1, b.current_usage_signature)
        && card_slot_as::<CardControlActivityDataRecord>(d, k, 0x0508, 0, Some(b.control_activity_data))
        && card_slot_as::<Signature>(d, k, 0x0508, 1, Some(b.control_activity_data_signature))
        && dyn_card_slot_as::<SpecificConditions>(d, k, 0x0522, 0, Some(b.specific_conditions))
        && card_slot_as::<Signature>(d, k, 0x0522, 1, Some(b.specific_conditions_signature))
}

/// `b` holds the files of the entries of `d`: for each, the last entry that names it.
pub open spec fn card_gen2_blocks_as(d: Seq<u8>, b: CardGen2Blocks) -> bool {
    let k = card_count(d);
    card_slot_as::<CardIccIdentificationGen2>(d, k, 0x0002, 2, Some(b.card_icc_identification))
        && card_slot_as::<CardChipIdentification>(d, k, 0x0005, 2, Some(b.card_chip_identification))
        && card_slot_as::<DriverCardApplicationIdentificationGen2>(d, k, 0x0501, 2, Some(b.application_identification))
        && dyn_card_slot_as::<SignatureGen2>(d, k, 0x0501, 3, Some(b.application_identification_signature))
        && dyn_card_slot_as::<CertificateGen2>(d, k, 0xC101, 2, Some(b.card_sign_certificate))
        && dyn_card_slot_as::<CertificateGen2>(d, k, 0xC108, 2, Some(b.ca_certificate))
        && dyn_card_slot_as::<CertificateGen2>(d, k, 0xC109, 2, Some(b.link_certificate))
        && card_slot_as::<Identification>(d, k, 0x0520, 2, Some(b.identification))
        && dyn_card_slot_as::<SignatureGen2>(d, k, 0x0520, 3, Some(b.identification_signature))
        && card_slot_as::<CardDownload>(d, k, 0x050E, 2, b.card_download)
        && dyn_card_slot_as::<SignatureGen2>(d, k, 0x050E, 3, b.card_download_signature)
        && card_slot_as::<CardDrivingLicenceInformation>(d, k, 0x0521, 2, b.driver_licence_info)
        && dyn_card_slot_as::<SignatureGen2>(d, k, 0x0521, 3, b.driver_licence_info_signature)
        && dyn_card_slot_as::<CardEventDataGen2>(d, k, 0x0502, 2, Some(b.events_data))
        && dyn_card_slot_as::<SignatureGen2>(d, k, 0x0502, 3, Some(b.events_data_signature))
        && card_slot_as::<CardFaultDataGen2>(d, k, 0x0503, 2, Some(b.faults_data))
        && dyn_card_slot_as::<SignatureGen2>(d, k, 0x0503, 3, Some(b.faults_data_signature))
        && card_slot_as::<DriverActivityData>(d, k, 0x0504, 2, Some(b.driver_activity_data))
        && dyn_card_slot_as::<SignatureGen2>(d, k, 0x0504, 3, Some(b.driver_activity_data_signature))
        && dyn_card_slot_as::<CardVehiclesUsedGen2>(d, k, 0x0505, 2, Some(b.vehicles_used))
        && dyn_card_slot_as::<SignatureGen2>(d, k, 0x0505, 3, Some(b.vehicles_used_signature))
        && dyn_card_slot_as::<CardPlaceDailyWorkPeriodGen2>(d, k, 0x0506, 2, Some(b.places))
        && dyn_card_slot_as::<SignatureGen2>(d, k, 0x0506, 3, Some(b.places_signature))
        && card_slot_as::<CurrentUsage>(d, k, 0x0507, 2, b.current_usage)
        && dyn_card_slot_as::<SignatureGen2>(d, k, 0x0507, 3, b.current_usage_signature)
        && card_slot_as::<CardControlActivityDataRecordGen2>(d, k, 0x0508, 2, Some(b.control_activity_data))
        && dyn_card_slot_as::<SignatureGen2>(d, k, 0x0508, 3, Some(b.control_activity_data_signature))
        && dyn_card_slot_as::<SpecificConditionsGen2>(d, k, 0x0522, 2, Some(b.specific_conditions))
        && dyn_card_slot_as::<SignatureGen2>(d, k, 0x0522, 3, Some(b.specific_conditions_signature))
        && dyn_card_slot_as::<CardVehicleUnitsUsedGen2>(d, k, 0x0523, 2, Some(b.vehicle_units_used))
        && dyn_card_slot_as::<SignatureGen2>(d, k, 0x0523, 3, Some(b.vehicle_units_used_signature))
        && dyn_card_slot_as::<GNSSAccumulatedDrivingGen2>(d, k, 0x0524, 2, Some(b.gnss_accumulated_driving))
        && dyn_card_slot_as::<SignatureGen2>(d, k, 0x0524, 3, Some(b.gnss_places_signature))
}

/// `v` holds the files of the card file `d`, with those of generation 2
/// exactly when the generation 2 chip identification is among them.
pub open spec fn card_data_as(d: Seq<u8>, v: CardData) -> bool {
    match v {
        CardData::Gen1 { gen1_blocks } => !card_present(d, 0x0002, 2) && card_gen1_blocks_as(d, gen1_blocks),
        CardData::Gen2 { gen1_blocks, gen2_blocks } => card_present(d, 0x0002, 2) && card_gen1_blocks_as(
            d,
            gen1_blocks,
        ) && card_gen2_blocks_as(d, gen2_blocks),
        CardData::Gen2V2 { .. } => false,
    }
}

/// The gen1 files read so far.
struct CardGen1Slots {
    card_icc_identification: Option<CardIccIdentification>,
    card_chip_identification: Option<CardChipIdentification>,
    application_identification: Option<DriverCardApplicationIdentification>,
    application_identification_signature: Option<Signature>,
    card_certificate: Option<Certificate>,
    member_state_certificate: Option<Certificate>,
    identification: Option<Identification>,
    identification_signature: Option<Signature>,
    card_download: Option<CardDownload>,
    card_download_signature: Option<Signature>,
    driver_licence_info: Option<CardDrivingLicenceInformation>,
    driver_licence_info_signature: Option<Signature>,
    events_data: Option<CardEventData>,
    events_data_signature: Option<Signature>,
    faults_data: Option<CardFaultData>,
    faults_data_signature: Option<Signature>,
    driver_activity_data: Option<DriverActivityData>,
    driver_activity_data_signature: Option<Signature>,
    vehicles_used: Option<CardVehiclesUsed>,
    vehicles_used_signature: Option<Signature>,
    places: Option<CardPlaceDailyWorkPeriod>,
    places_signature: Option<Signature>,
    current_usage: Option<CurrentUsage>,
    current_usage_signature: Option<Signature>,
    control_activity_data: Option<CardControlActivityDataRecord>,
    control_activity_data_signature: Option<Signature>,
    specific_conditions: Option<SpecificConditions>,
    specific_conditions_signature: Option<Signature>,
}

/// `v` holds, for each gen1 file, the last of the first `k` entries that names it.
spec fn gen1_slots_as(d: Seq<u8>, k: nat, v: CardGen1Slots) -> bool {
    card_slot_as::<CardIccIdentification>(d, k, 0x0002, 0, v.card_icc_identification)
        && card_slot_as::<CardChipIdentification>(d, k, 0x0005, 0, v.card_chip_identification)
        && card_slot_as::<DriverCardApplicationIdentification>(d, k, 0x0501, 0, v.application_identification)
        && card_slot_as::<Signature>(d, k, 0x0501, 1, v.application_identification_signature)
        && card_slot_as::<Certificate>(d, k, 0xC100, 0, v.card_certificate)
        && card_slot_as::<Certificate>(d, k, 0xC108, 0, v.member_state_certificate)
        && card_slot_as::<Identification>(d, k, 0x0520, 0, v.identification)
        && card_slot_as::<Signature>(d, k, 0x0520, 1, v.identification_signature)
        && card_slot_as::<CardDownload>(d, k, 0x050E, 0, v.card_download)
        && card_slot_as::<Signature>(d, k, 0x050E, 1, v.card_download_signature)
        && card_slot_as::<CardDrivingLicenceInformation>(d, k, 0x0521, 0, v.driver_licence_info)
        && card_slot_as::<Signature>(d, k, 0x0521, 1, v.driver_licence_info_signature)
        && dyn_card_slot_as::<CardEventData>(d, k, 0x0502, 0, v.events_data)
        && card_slot_as::<Signature>(d, k, 0x0502, 1, v.events_data_signature)
        && dyn_card_slot_as::<CardFaultData>(d, k, 0x0503, 0, v.faults_data)
        && card_slot_as::<Signature>(d, k, 0x0503, 1, v.faults_data_signature)
        && card_slot_as::<DriverActivityData>(d, k, 0x0504, 0, v.driver_activity_data)
        && card_slot_as::<Signature>(d, k, 0x0504, 1, v.driver_activity_data_signature)
        && dyn_card_slot_as::<CardVehiclesUsed>(d, k, 0x0505, 0, v.vehicles_used)
        && card_slot_as::<Signature>(d, k, 0x0505, 1, v.vehicles_used_signature)
        && dyn_card_slot_as::<CardPlaceDailyWorkPeriod>(d, k, 0x0506, 0, v.places)
        && card_slot_as::<Signature>(d, k, 0x0506, 1, v.places_signature)
        && card_slot_as::<CurrentUsage>(d, k, 0x0507, 0, v.current_usage)
        && card_slot_as::<Signature>(d, k, 0x0507, 1, v.current_usage_signature)
        && card_slot_as::<CardControlActivityDataRecord>(d, k, 0x0508, 0, v.control_activity_data)
        && card_slot_as::<Signature>(d, k, 0x0508, 1, v.control_activity_data_signature)
        && dyn_card_slot_as::<SpecificConditions>(d, k, 0x0522, 0, v.specific_conditions)
        && card_slot_as::<Signature>(d, k, 0x0522, 1, v.specific_conditions_signature)
}

/// The gen2 files read so far.
struct CardGen2Slots {
    card_icc_identification: Option<CardIccIdentificationGen2>,
    card_chip_identification: Option<CardChipIdentification>,
    application_identification: Option<DriverCardApplicationIdentificationGen2>,
    application_identification_signature: Option<SignatureGen2>,
    card_sign_certificate: Option<CertificateGen2>,
    ca_certificate: Option<CertificateGen2>,
    link_certificate: Option<CertificateGen2>,
    identification: Option<Identification>,
    identification_signature: Option<SignatureGen2>,
    card_download: Option<CardDownload>,
    card_download_signature: Option<SignatureGen2>,
    driver_licence_info: Option<CardDrivingLicenceInformation>,
    driver_licence_info_signature: Option<SignatureGen2>,
    events_data: Option<CardEventDataGen2>,
    events_data_signature: Option<SignatureGen2>,
    faults_data: Option<CardFaultDataGen2>,
    faults_data_signature: Option<SignatureGen2>,
    driver_activity_data: Option<DriverActivityData>,
    driver_activity_data_signature: Option<SignatureGen2>,
    vehicles_used: Option<CardVehiclesUsedGen2>,
    vehicles_used_signature: Option<SignatureGen2>,
    places: Option<CardPlaceDailyWorkPeriodGen2>,
    places_signature: Option<SignatureGen2>,
    current_usage: Option<CurrentUsage>,
    current_usage_signature: Option<SignatureGen2>,
    control_activity_data: Option<CardControlActivityDataRecordGen2>,
    control_activity_data_signature: Option<SignatureGen2>,
    specific_conditions: Option<SpecificConditionsGen2>,
    specific_conditions_signature: Option<SignatureGen2>,
    vehicle_units_used: Option<CardVehicleUnitsUsedGen2>,
    vehicle_units_used_signature: Option<SignatureGen2>,
    gnss_accumulated_driving: Option<GNSSAccumulatedDrivingGen2>,
    gnss_places_signature: Option<SignatureGen2>,
}

/// `v` holds, for each gen2 file, the last of the first `k` entries that names it.
spec fn gen2_slots_as(d: Seq<u8>, k: nat, v: CardGen2Slots) -> bool {
    card_slot_as::<CardIccIdentificationGen2>(d, k, 0x0002, 2, v.card_icc_identification)
        && card_slot_as::<CardChipIdentification>(d, k, 0x0005, 2, v.card_chip_identification)
        && card_slot_as::<DriverCardApplicationIdentificationGen2>(d, k, 0x0501, 2, v.application_identification)
        && dyn_card_slot_as::<SignatureGen2>(d, k, 0x0501, 3, v.application_identification_signature)
        && dyn_card_slot_as::<CertificateGen2>(d, k, 0xC101, 2, v.card_sign_certificate)
        && dyn_card_slot_as::<CertificateGen2>(d, k, 0xC108, 2, v.ca_certificate)
        && dyn_card_slot_as::<CertificateGen2>(d, k, 0xC109, 2, v.link_certificate)
        && card_slot_as::<Identification>(d, k, 0x0520, 2, v.identification)
        && dyn_card_slot_as::<SignatureGen2>(d, k, 0x0520, 3, v.identification_signature)
        && card_slot_as::<CardDownload>(d, k, 0x050E, 2, v.card_download)
        && dyn_card_slot_as::<SignatureGen2>(d, k, 0x050E, 3, v.card_download_signature)
        && card_slot_as::<CardDrivingLicenceInformation>(d, k, 0x0521, 2, v.driver_licence_info)
        && dyn_card_slot_as::<SignatureGen2>(d, k, 0x0521, 3, v.driver_licence_info_signature)
        && dyn_card_slot_as::<CardEventDataGen2>(d, k, 0x0502, 2, v.events_data)
        && dyn_card_slot_as::<SignatureGen2>(d, k, 0x0502, 3, v.events_data_signature)
        && card_slot_as::<CardFaultDataGen2>(d, k, 0x0503, 2, v.faults_data)
        && dyn_card_slot_as::<SignatureGen2>(d, k, 0x0503, 3, v.faults_data_signature)
        && card_slot_as::<DriverActivityData>(d, k, 0x0504, 2, v.driver_activity_data)
        && dyn_card_slot_as::<SignatureGen2>(d, k, 0x0504, 3, v.driver_activity_data_signature)
        && dyn_card_slot_as::<CardVehiclesUsedGen2>(d, k, 0x0505, 2, v.vehicles_used)
        && dyn_card_slot_as::<SignatureGen2>(d, k, 0x0505, 3, v.vehicles_used_signature)
        && dyn_card_slot_as::<CardPlaceDailyWorkPeriodGen2>(d, k, 0x0506, 2, v.places)
        && dyn_card_slot_as::<SignatureGen2>(d, k, 0x0506, 3, v.places_signature)
        && card_slot_as::<CurrentUsage>(d, k, 0x0507, 2, v.current_usage)
        && dyn_card_slot_as::<SignatureGen2>(d, k, 0x0507, 3, v.current_usage_signature)
        && card_slot_as::<CardControlActivityDataRecordGen2>(d, k, 0x0508, 2, v.control_activity_data)
        && dyn_card_slot_as::<SignatureGen2>(d, k, 0x0508, 3, v.control_activity_data_signature)
        && dyn_card_slot_as::<SpecificConditionsGen2>(d, k, 0x0522, 2, v.specific_conditions)
        && dyn_card_slot_as::<SignatureGen2>(d, k, 0x0522, 3, v.specific_conditions_signature)
        && dyn_card_slot_as::<CardVehicleUnitsUsedGen2>(d, k, 0x0523, 2, v.vehicle_units_used)
        && dyn_card_slot_as::<SignatureGen2>(d, k, 0x0523, 3, v.vehicle_units_used_signature)
        && dyn_card_slot_as::<GNSSAccumulatedDrivingGen2>(d, k, 0x0524, 2, v.gnss_accumulated_driving)
        && dyn_card_slot_as::<SignatureGen2>(d, k, 0x0524, 3, v.gnss_places_signature)
}

/// Reads the block at the reader into `slot`, refusing a second one when `unique`.
fn store_block<T: Parse>(slot: &mut Option<T>, cursor: &mut Cursor, unique: bool) -> (res: Result<(), ParseError>)
    ensures
        final(cursor).data() == old(cursor).data(),
        res is Ok <==> (!(unique && *old(slot) is Some) && card_block_ok::<T>(old(cursor).data(), old(cursor).pos())),
        res is Ok ==> final(cursor).pos() == card_block_end(old(cursor).data(), old(cursor).pos()),
        res is Ok ==> (*final(slot) matches Some(v) && card_block_as::<T>(old(cursor).data(), old(cursor).pos(), v)),
        res matches Err(e) ==> e == (if unique && *old(slot) is Some {
            ParseError::DuplicateBlock
        } else {
            card_block_err::<T>(old(cursor).data(), old(cursor).pos())
        }),
{
    if unique && slot.is_some() {
        return Err(ParseError::DuplicateBlock);
    }
    let block = CardBlock::<T>::parse(cursor)?;
    *slot = Some(block.into_inner());
    Ok(())
}

/// Like `store_block`, for files as long as their blocks.
fn store_dyn_block<T: ParseDyn>(slot: &mut Option<T>, cursor: &mut Cursor, unique: bool) -> (res: Result<(), ParseError>)
    ensures
        final(cursor).data() == old(cursor).data(),
        res is Ok <==> (!(unique && *old(slot) is Some) && dyn_card_block_ok::<T>(old(cursor).data(), old(cursor).pos())),
        res is Ok ==> final(cursor).pos() == card_block_end(old(cursor).data(), old(cursor).pos()),
        res is Ok ==> (*final(slot) matches Some(v) && dyn_card_block_as::<T>(old(cursor).data(), old(cursor).pos(), v)),
        res matches Err(e) ==> e == (if unique && *old(slot) is Some {
            ParseError::DuplicateBlock
        } else {
            dyn_card_block_err::<T>(old(cursor).data(), old(cursor).pos())
        }),
{
    if unique && slot.is_some() {
        return Err(ParseError::DuplicateBlock);
    }
    let block = CardBlock::<T>::parse_dyn_size(cursor)?;
    *slot = Some(block.into_inner());
    Ok(())
}

/// The gen2 files read so far stay what they were across an entry of another generation.
proof fn lemma_gen2_frame(d: Seq<u8>, k: nat, v: CardGen2Slots)
    requires
        d[card_entry_pos(d, k) + 2] == 0 || d[card_entry_pos(d, k) + 2] == 1,
        gen2_slots_as(d, k, v),
    ensures
        gen2_slots_as(d, k + 1, v),
{
}

/// Reads the block of an entry of type 0 or 1 whose header, at `q`, names file `sfid` of type `fid`.
#[verifier::spinoff_prover]
#[verifier::rlimit(100)]
fn read_gen1_entry(slots: &mut CardGen1Slots, cursor: &mut Cursor, sfid: u16, fid: u8, Ghost(d): Ghost<Seq<u8>>, Ghost(q): Ghost<int>, Ghost(k): Ghost<nat>) -> (res: Result<bool, ParseError>)
    requires
        old(cursor).data() == d,
        old(cursor).pos() == q + 3,
        bytes_ok(d, q, 3),
        sfid == be16(d, q),
        fid == d[q + 2],
        fid == 0 || fid == 1,
        q == card_entry_pos(d, k),
        gen1_slots_as(d, k, *old(slots)),
    ensures
        final(cursor).data() == d,
        res matches Ok(b) ==> b == card_tag_known(sfid as int, fid as int),
        res matches Ok(false) ==> *final(slots) == *old(slots),
        res matches Ok(true) ==> card_entry_ok(d, q) && !card_dup(d, k, q) && final(cursor).pos() == card_next(d, q) && gen1_slots_as(d, k + 1, *final(slots)),
        res is Err ==> card_tag_known(sfid as int, fid as int) && !(card_entry_ok(d, q) && !card_dup(d, k, q)),
        res matches Err(e) ==> e == card_entry_fail(d, k, q),
{
    match (sfid, fid) {
        (0x0002, 0) => {
            store_block::<CardIccIdentification>(&mut slots.card_icc_identification, cursor, true)?;
            Ok(true)
        },
        (0x0005, 0) => {
            store_block::<CardChipIdentification>(&mut slots.card_chip_identification, cursor, true)?;
            Ok(true)
        },
        (0x0501, 0) => {
            store_block::<DriverCardApplicationIdentification>(&mut slots.application_identification, cursor, true)?;
            Ok(true)
        },
        (0x0501, 1) => {
            store_block::<Signature>(&mut slots.application_identification_signature, cursor, false)?;
            Ok(true)
        },
        (0xC100, 0) => {
            store_block::<Certificate>(&mut slots.card_certificate, cursor, false)?;
            Ok(true)
        },
        (0xC108, 0) => {
            store_block::<Certificate>(&mut slots.member_state_certificate, cursor, false)?;
            Ok(true)
        },
        (0x0520, 0) => {
            store_block::<Identification>(&mut slots.identification, cursor, true)?;
            Ok(true)
        },
        (0x0520, 1) => {
            store_block::<Signature>(&mut slots.identification_signature, cursor, false)?;
            Ok(true)
        },
        (0x050E, 0) => {
            store_block::<CardDownload>(&mut slots.card_download, cursor, false)?;
            Ok(true)
        },
        (0x050E, 1) => {
            store_block::<Signature>(&mut slots.card_download_signature, cursor, false)?;
            Ok(true)
        },
        (0x0521, 0) => {
            store_block::<CardDrivingLicenceInformation>(&mut slots.driver_licence_info, cursor, true)?;
            Ok(true)
        },
        (0x0521, 1) => {
            store_block::<Signature>(&mut slots.driver_licence_info_signature, cursor, false)?;
            Ok(true)
        },
        (0x0502, 0) => {
            store_dyn_block::<CardEventData>(&mut slots.events_data, cursor, true)?;
            Ok(true)
        },
        (0x0502, 1) => {
            store_block::<Signature>(&mut slots.events_data_signature, cursor, false)?;
            Ok(true)
        },
        (0x0503, 0) => {
            store_dyn_block::<CardFaultData>(&mut slots.faults_data, cursor, true)?;
            Ok(true)
        },
        (0x0503, 1) => {
            store_block::<Signature>(&mut slots.faults_data_signature, cursor, false)?;
            Ok(true)
        },
        (0x0504, 0) => {
            store_block::<DriverActivityData>(&mut slots.driver_activity_data, cursor, true)?;
            Ok(true)
        },
        (0x0504, 1) => {
            store_block::<Signature>(&mut slots.driver_activity_data_signature, cursor, false)?;
            Ok(true)
        },
        (0x0505, 0) => {
            store_dyn_block::<CardVehiclesUsed>(&mut slots.vehicles_used, cursor, true)?;
            Ok(true)
        },
        (0x0505, 1) => {
            store_block::<Signature>(&mut slots.vehicles_used_signature, cursor, false)?;
            Ok(true)
        },
        (0x0506, 0) => {
            store_dyn_block::<CardPlaceDailyWorkPeriod>(&mut slots.places, cursor, true)?;
            Ok(true)
        },
        (0x0506, 1) => {
            store_block::<Signature>(&mut slots.places_signature, cursor, false)?;
            Ok(true)
        },
        (0x0507, 0) => {
            store_block::<CurrentUsage>(&mut slots.current_usage, cursor, false)?;
            Ok(true)
        },
        (0x0507, 1) => {
            store_block::<Signature>(&mut slots.current_usage_signature, cursor, false)?;
            Ok(true)
        },
        (0x0508, 0) => {
            store_block::<CardControlActivityDataRecord>(&mut slots.control_activity_data, cursor, true)?;
            Ok(true)
        },
        (0x0508, 1) => {
            store_block::<Signature>(&mut slots.control_activity_data_signature, cursor, false)?;
            Ok(true)
        },
        (0x0522, 0) => {
            store_dyn_block::<SpecificConditions>(&mut slots.specific_conditions, cursor, true)?;
            Ok(true)
        },
        (0x0522, 1) => {
            store_block::<Signature>(&mut slots.specific_conditions_signature, cursor, false)?;
            Ok(true)
        },
        _ => Ok(false),
    }
}

/// The gen1 files read so far stay what they were across an entry of another generation.
proof fn lemma_gen1_frame(d: Seq<u8>, k: nat, v: CardGen1Slots)
    requires
        d[card_entry_pos(d, k) + 2] == 2 || d[card_entry_pos(d, k) + 2] == 3,
        gen1_slots_as(d, k, v),
    ensures
        gen1_slots_as(d, k + 1, v),
{
}

/// Reads the block of an entry of type 2 or 3 whose header, at `q`, names file `sfid` of type `fid`.
#[verifier::spinoff_prover]
#[verifier::rlimit(100)]
fn read_gen2_entry(slots: &mut CardGen2Slots, cursor: &mut Cursor, sfid: u16, fid: u8, Ghost(d): Ghost<Seq<u8>>, Ghost(q): Ghost<int>, Ghost(k): Ghost<nat>) -> (res: Result<bool, ParseError>)
    requires
        old(cursor).data() == d,
        old(cursor).pos() == q + 3,
        bytes_ok(d, q, 3),
        sfid == be16(d, q),
        fid == d[q + 2],
        fid == 2 || fid == 3,
        q == card_entry_pos(d, k),
        gen2_slots_as(d, k, *old(slots)),
    ensures
        final(cursor).data() == d,
        res matches Ok(b) ==> b == card_tag_known(sfid as int, fid as int),
        res matches Ok(false) ==> *final(slots) == *old(slots),
        res matches Ok(true) ==> card_entry_ok(d, q) && !card_dup(d, k, q) && final(cursor).pos() == card_next(d, q) && gen2_slots_as(d, k + 1, *final(slots)),
        res is Err ==> card_tag_known(sfid as int, fid as int) && !(card_entry_ok(d, q) && !card_dup(d, k, q)),
        res matches Err(e) ==> e == card_entry_fail(d, k, q),
{
    match (sfid, fid) {
        (0x0002, 2) => {
            store_block::<CardIccIdentificationGen2>(&mut slots.card_icc_identification, cursor, true)?;
            Ok(true)
        },
        (0x0005, 2) => {
            store_block::<CardChipIdentification>(&mut slots.card_chip_identification, cursor, true)?;
            Ok(true)
        },
        (0x0501, 2) => {
            store_block::<DriverCardApplicationIdentificationGen2>(&mut slots.application_identification, cursor, true)?;
            Ok(true)
        },
        (0x0501, 3) => {
            store_dyn_block::<SignatureGen2>(&mut slots.application_identification_signature, cursor, true)?;
            Ok(true)
        },
        (0xC101, 2) => {
            store_dyn_block::<CertificateGen2>(&mut slots.card_sign_certificate, cursor, true)?;
            Ok(true)
        },
        (0xC108, 2) => {
            store_dyn_block::<CertificateGen2>(&mut slots.ca_certificate, cursor, true)?;
            Ok(true)
        },
        (0xC109, 2) => {
            store_dyn_block::<CertificateGen2>(&mut slots.link_certificate, cursor, true)?;
            Ok(true)
        },
        (0x0520, 2) => {
            store_block::<Identification>(&mut slots.identification, cursor, true)?;
            Ok(true)
        },
        (0x0520, 3) => {
            store_dyn_block::<SignatureGen2>(&mut slots.identification_signature, cursor, true)?;
            Ok(true)
        },
        (0x050E, 2) => {
            store_block::<CardDownload>(&mut slots.card_download, cursor, false)?;
            Ok(true)
        },
        (0x050E, 3) => {
            store_dyn_block::<SignatureGen2>(&mut slots.card_download_signature, cursor, true)?;
            Ok(true)
        },
        (0x0521, 2) => {
            store_block::<CardDrivingLicenceInformation>(&mut slots.driver_licence_info, cursor, true)?;
            Ok(true)
        },
        (0x0521, 3) => {
            store_dyn_block::<SignatureGen2>(&mut slots.driver_licence_info_signature, cursor, true)?;
            Ok(true)
        },
        (0x0502, 2) => {
            store_dyn_block::<CardEventDataGen2>(&mut slots.events_data, cursor, true)?;
            Ok(true)
        },
        (0x0502, 3) => {
            store_dyn_block::<SignatureGen2>(&mut slots.events_data_signature, cursor, true)?;
            Ok(true)
        },
        (0x0503, 2) => {
            store_block::<CardFaultDataGen2>(&mut slots.faults_data, cursor, true)?;
            Ok(true)
        },
        (0x0503, 3) => {
            store_dyn_block::<SignatureGen2>(&mut slots.faults_data_signature, cursor, true)?;
            Ok(true)
        },
        (0x0504, 2) => {
            store_block::<DriverActivityData>(&mut slots.driver_activity_data, cursor, true)?;
            Ok(true)
        },
        (0x0504, 3) => {
            store_dyn_block::<SignatureGen2>(&mut slots.driver_activity_data_signature, cursor, true)?;
            Ok(true)
        },
        (0x0505, 2) => {
            store_dyn_block::<CardVehiclesUsedGen2>(&mut slots.vehicles_used, cursor, true)?;
            Ok(true)
        },
        (0x0505, 3) => {
            store_dyn_block::<SignatureGen2>(&mut slots.vehicles_used_signature, cursor, true)?;
            Ok(true)
        },
        (0x0506, 2) => {
            store_dyn_block::<CardPlaceDailyWorkPeriodGen2>(&mut slots.places, cursor, true)?;
            Ok(true)
        },
        (0x0506, 3) => {
            store_dyn_block::<SignatureGen2>(&mut slots.places_signature, cursor, true)?;
            Ok(true)
        },
        (0x0507, 2) => {
            store_block::<CurrentUsage>(&mut slots.current_usage, cursor, false)?;
            Ok(true)
        },
        (0x0507, 3) => {
            store_dyn_block::<SignatureGen2>(&mut slots.current_usage_signature, cursor, true)?;
            Ok(true)
        },
        (0x0508, 2) => {
            store_block::<CardControlActivityDataRecordGen2>(&mut slots.control_activity_data, cursor, true)?;
            Ok(true)
        },
        (0x0508, 3) => {
            store_dyn_block::<SignatureGen2>(&mut slots.control_activity_data_signature, cursor, true)?;
            Ok(true)
        },
        (0x0522, 2) => {
            store_dyn_block::<SpecificConditionsGen2>(&mut slots.specific_conditions, cursor, true)?;
            Ok(true)
        },
        (0x0522, 3) => {
            store_dyn_block::<SignatureGen2>(&mut slots.specific_conditions_signature, cursor, true)?;
            Ok(true)
        },
        (0x0523, 2) => {
            store_dyn_block::<CardVehicleUnitsUsedGen2>(&mut slots.vehicle_units_used, cursor, true)?;
            Ok(true)
        },
        (0x0523, 3) => {
            store_dyn_block::<SignatureGen2>(&mut slots.vehicle_units_used_signature, cursor, true)?;
            Ok(true)
        },
        (0x0524, 2) => {
            store_dyn_block::<GNSSAccumulatedDrivingGen2>(&mut slots.gnss_accumulated_driving, cursor, true)?;
            Ok(true)
        },
        (0x0524, 3) => {
            store_dyn_block::<SignatureGen2>(&mut slots.gnss_places_signature, cursor, true)?;
            Ok(true)
        },
        _ => Ok(false),
    }
}

proof fn lemma_card_prefix_mono(d: Seq<u8>, k: nat, m: nat)
    requires
        k <= m,
    ensures
        card_prefix_ok(d, m) ==> card_prefix_ok(d, k),
    decreases m,
{
    if k < m {
        lemma_card_prefix_mono(d, k, (m - 1) as nat);
    }
}

/// No entry among the first `k` fails exactly when all of them read.
proof fn lemma_card_err_upto_none(d: Seq<u8>, k: nat)
    ensures
        card_err_upto(d, k) is None <==> card_prefix_ok(d, k),
    decreases k,
{
    if k > 0 {
        lemma_card_err_upto_none(d, (k - 1) as nat);
    }
}

/// The error of the first failing entry stays the first error as more entries are counted.
proof fn lemma_card_err_upto_stays(d: Seq<u8>, k: nat, m: nat)
    requires
        k <= m,
        card_err_upto(d, k) is Some,
    ensures
        card_err_upto(d, m) == card_err_upto(d, k),
    decreases m,
{
    if k < m {
        lemma_card_err_upto_stays(d, k, (m - 1) as nat);
    }
}

/// When the first `k` entries read and entry `k`, one that is read, does
/// not, its error is the error of the card file.
proof fn lemma_card_entry_fails(d: Seq<u8>, k: nat)
    requires
        card_prefix_ok(d, k),
        k < card_count(d),
        !(card_entry_ok(d, card_entry_pos(d, k)) && !card_dup(d, k, card_entry_pos(d, k))),
    ensures
        card_parse_err(d) == card_entry_fail(d, k, card_entry_pos(d, k)),
{
    lemma_card_err_upto_none(d, k);
    lemma_card_err_upto_stays(d, k + 1, card_count(d));
}

/// A parser of driver card files, holding the file's bytes.
pub struct CardParser {
    input: Vec<u8>,
}

impl CardParser {
    /// The file's bytes.
    pub closed spec fn bytes(self) -> Seq<u8> {
        self.input@
    }

    /// A parser of `bytes`.
    pub fn new_from_bytes(bytes: &[u8]) -> (res: Result<CardParser, ParseError>)
        ensures
            res matches Ok(p) && p.bytes() == bytes@,
    {
        Ok(CardParser { input: slice_to_vec(bytes) })
    }

    /// Reads the entries of the card file from the start, up to the end of the
    /// data or the first entry that names no file the parser reads, and
    /// gathers the files by generation.
    pub fn parse(&self) -> (res: Result<CardData, ParseError>)
        ensures
            res is Ok <==> card_parse_ok(self.bytes()),
            res matches Ok(v) ==> card_data_as(self.bytes(), v),
            res matches Err(e) ==> e == card_parse_err(self.bytes()),
    {
        let ghost d = self.bytes();
        let mut cursor = Cursor::new(self.input.as_slice());

        let mut g1 = CardGen1Slots { card_icc_identification: None, card_chip_identification: None, application_identification: None, application_identification_signature: None, card_certificate: None, member_state_certificate: None, identification: None, identification_signature: None, card_download: None, card_download_signature: None, driver_licence_info: None, driver_licence_info_signature: None, events_data: None, events_data_signature: None, faults_data: None, faults_data_signature: None, driver_activity_data: None, driver_activity_data_signature: None, vehicles_used: None, vehicles_used_signature: None, places: None, places_signature: None, current_usage: None, current_usage_signature: None, control_activity_data: None, control_activity_data_signature: None, specific_conditions: None, specific_conditions_signature: None };
        let mut g2 = CardGen2Slots { card_icc_identification: None, card_chip_identification: None, application_identification: None, application_identification_signature: None, card_sign_certificate: None, ca_certificate: None, link_certificate: None, identification: None, identification_signature: None, card_download: None, card_download_signature: None, driver_licence_info: None, driver_licence_info_signature: None, events_data: None, events_data_signature: None, faults_data: None, faults_data_signature: None, driver_activity_data: None, driver_activity_data_signature: None, vehicles_used: None, vehicles_used_signature: None, places: None, places_signature: None, current_usage: None, current_usage_signature: None, control_activity_data: None, control_activity_data_signature: None, specific_conditions: None, specific_conditions_signature: None, vehicle_units_used: None, vehicle_units_used_signature: None, gnss_accumulated_driving: None, gnss_places_signature: None };
        let ghost mut k: nat = 0;
        loop
            invariant_except_break
                cursor.pos() == card_entry_pos(d, k),
            invariant
                cursor.data() == d,
                d == self.bytes(),
                card_count(d) == k + card_scan(d, card_entry_pos(d, k)),
                card_prefix_ok(d, k),
                gen1_slots_as(d, k, g1),
                gen2_slots_as(d, k, g2),
            ensures
                card_count(d) == k,
                card_prefix_ok(d, k),
                card_entry_pos(d, k) >= d.len() || bytes_ok(d, card_entry_pos(d, k), 3),
                gen1_slots_as(d, k, g1),
                gen2_slots_as(d, k, g2),
            decreases card_count(d) - k,
        {
            let remaining = cursor.remaining();
            if remaining == 0 {
                break;
            }
            if remaining < 3 {
                proof {
                    lemma_card_err_upto_none(d, k);
                }
                return Err(ParseError::UnexpectedEnd);
            }
            let ghost q = cursor.pos();
            let sfid = cursor.read_u16_be()?;
            let fid = cursor.read_u8()?;
            proof {
                if card_tag_known(sfid as int, fid as int) {
                    lemma_card_prefix_mono(d, k + 1, card_count(d));
                }
            }
            let known = if fid == 0 || fid == 1 {
                let read = read_gen1_entry(&mut g1, &mut cursor, sfid, fid, Ghost(d), Ghost(q), Ghost(k));
                let known = match read {
                    Ok(b) => b,
                    Err(e) => {
                        proof {
                            lemma_card_entry_fails(d, k);
                        }
                        return Err(e);
                    },
                };
                proof {
                    lemma_gen2_frame(d, k, g2);
                }
                known
            } else if fid == 2 || fid == 3 {
                let read = read_gen2_entry(&mut g2, &mut cursor, sfid, fid, Ghost(d), Ghost(q), Ghost(k));
                let known = match read {
                    Ok(b) => b,
                    Err(e) => {
                        proof {
                            lemma_card_entry_fails(d, k);
                        }
                        return Err(e);
                    },
                };
                proof {
                    lemma_gen1_frame(d, k, g1);
                }
                known
            } else {
                false
            };
            if !known {
                break;
            }
            proof {
                k = k + 1;
            }
        }

        proof {
            lemma_card_err_upto_none(d, k);
        }
        let CardGen1Slots { card_icc_identification, card_chip_identification, application_identification, application_identification_signature, card_certificate, member_state_certificate, identification, identification_signature, card_download, card_download_signature, driver_licence_info, driver_licence_info_signature, events_data, events_data_signature, faults_data, faults_data_signature, driver_activity_data, driver_activity_data_signature, vehicles_used, vehicles_used_signature, places, places_signature, current_usage, current_usage_signature, control_activity_data, control_activity_data_signature, specific_conditions, specific_conditions_signature } = g1;
        let card_icc_identification = match card_icc_identification {
            Some(v) => v,
            None => return Err(ParseError::MissingBlock),
        };
        let card_chip_identification = match card_chip_identification {
            Some(v) => v,
            None => return Err(ParseError::MissingBlock),
        };
        let application_identification = match application_identification {
            Some(v) => v,
            None => return Err(ParseError::MissingBlock),
        };
        let application_identification_signature = match application_identification_signature {
            Some(v) => v,
            None => return Err(ParseError::MissingBlock),
        };
        let card_certificate = match card_certificate {
            Some(v) => v,
            None => return Err(ParseError::MissingBlock),
        };
        let member_state_certificate = match member_state_certificate {
            Some(v) => v,
            None => return Err(ParseError::MissingBlock),
        };
        let identification = match identification {
            Some(v) => v,
            None => return Err(ParseError::MissingBlock),
        };
        let identification_signature = match identification_signature {
            Some(v) => v,
            None => return Err(ParseError::MissingBlock),
        };
        let events_data = match events_data {
            Some(v) => v,
            None => return Err(ParseError::MissingBlock),
        };
        let events_data_signature = match events_data_signature {
            Some(v) => v,
            None => return Err(ParseError::MissingBlock),
        };
        let faults_data = match faults_data {
            Some(v) => v,
            None => return Err(ParseError::MissingBlock),
        };
        let faults_data_signature = match faults_data_signature {
            Some(v) => v,
            None => return Err(ParseError::MissingBlock),
        };
        let driver_activity_data = match driver_activity_data {
            Some(v) => v,
            None => return Err(ParseError::MissingBlock),
        };
        let driver_activity_data_signature = match driver_activity_data_signature {
            Some(v) => v,
            None => return Err(ParseError::MissingBlock),
        };
        let vehicles_used = match vehicles_used {
            Some(v) => v,
            None => return Err(ParseError::MissingBlock),
        };
        let vehicles_used_signature = match vehicles_used_signature {
            Some(v) => v,
            None => return Err(ParseError::MissingBlock),
        };
        let places = match places {
            Some(v) => v,
            None => return Err(ParseError::MissingBlock),
        };
        let places_signature = match places_signature {
            Some(v) => v,
            None => return Err(ParseError::MissingBlock),
        };
        let control_activity_data = match control_activity_data {
            Some(v) => v,
            None => return Err(ParseError::MissingBlock),
        };
        let control_activity_data_signature = match control_activity_data_signature {
            Some(v) => v,
            None => return Err(ParseError::MissingBlock),
        };
        let specific_conditions = match specific_conditions {
            Some(v) => v,
            None => return Err(ParseError::MissingBlock),
        };
        let specific_conditions_signature = match specific_conditions_signature {
            Some(v) => v,
            None => return Err(ParseError::MissingBlock),
        };
        let gen1_blocks = CardGen1Blocks { card_icc_identification, card_chip_identification, application_identification, application_identification_signature, card_certificate, member_state_certificate, identification, identification_signature, card_download, card_download_signature, driver_licence_info, driver_licence_info_signature, events_data, events_data_signature, faults_data, faults_data_signature, driver_activity_data, driver_activity_data_signature, vehicles_used, vehicles_used_signature, places, places_signature, current_usage, current_usage_signature, control_activity_data, control_activity_data_signature, specific_conditions, specific_conditions_signature };
        let CardGen2Slots { card_icc_identification: card_icc_identification_gen2, card_chip_identification: card_chip_identification_gen2, application_identification: application_identification_gen2, application_identification_signature: application_identification_signature_gen2, card_sign_certificate: card_sign_certificate_gen2, ca_certificate: ca_certificate_gen2, link_certificate: link_certificate_gen2, identification: identification_gen2, identification_signature: identification_signature_gen2, card_download: card_download_gen2, card_download_signature: card_download_signature_gen2, driver_licence_info: driver_licence_info_gen2, driver_licence_info_signature: driver_licence_info_signature_gen2, events_data: events_data_gen2, events_data_signature: events_data_signature_gen2, faults_data: faults_data_gen2, faults_data_signature: faults_data_signature_gen2, driver_activity_data: driver_activity_data_gen2, driver_activity_data_signature: driver_activity_data_signature_gen2, vehicles_used: vehicles_used_gen2, vehicles_used_signature: vehicles_used_signature_gen2, places: places_gen2, places_signature: places_signature_gen2, current_usage: current_usage_gen2, current_usage_signature: current_usage_signature_gen2, control_activity_data: control_activity_data_gen2, control_activity_data_signature: control_activity_data_signature_gen2, specific_conditions: specific_conditions_gen2, specific_conditions_signature: specific_conditions_signature_gen2, vehicle_units_used: vehicle_units_used_gen2, vehicle_units_used_signature: vehicle_units_used_signature_gen2, gnss_accumulated_driving: gnss_accumulated_driving_gen2, gnss_places_signature: gnss_places_signature_gen2 } = g2;
        let card_icc_identification_gen2 = match card_icc_identification_gen2 {
            Some(v) => v,
            None => return Ok(CardData::Gen1 { gen1_blocks }),
        };
        let card_chip_identification_gen2 = match card_chip_identification_gen2 {
            Some(v) => v,
            None => return Err(ParseError::MissingBlock),
        };
        let application_identification_gen2 = match application_identification_gen2 {
            Some(v) => v,
            None => return Err(ParseError::MissingBlock),
        };
        let application_identification_signature_gen2 = match application_identification_signature_gen2 {
            Some(v) => v,
            None => return Err(ParseError::MissingBlock),
        };
        let card_sign_certificate_gen2 = match card_sign_certificate_gen2 {
            Some(v) => v,
            None => return Err(ParseError::MissingBlock),
        };
        let ca_certificate_gen2 = match ca_certificate_gen2 {
            Some(v) => v,
            None => return Err(ParseError::MissingBlock),
        };
        let link_certificate_gen2 = match link_certificate_gen2 {
            Some(v) => v,
            None => return Err(ParseError::MissingBlock),
        };
        let identification_gen2 = match identification_gen2 {
            Some(v) => v,
            None => return Err(ParseError::MissingBlock),
        };
        let identification_signature_gen2 = match identification_signature_gen2 {
            Some(v) => v,
            None => return Err(ParseError::MissingBlock),
        };
        let events_data_gen2 = match events_data_gen2 {
            Some(v) => v,
            None => return Err(ParseError::MissingBlock),
        };
        let events_data_signature_gen2 = match events_data_signature_gen2 {
            Some(v) => v,
            None => return Err(ParseError::MissingBlock),
        };
        let faults_data_gen2 = match faults_data_gen2 {
            Some(v) => v,
            None => return Err(ParseError::MissingBlock),
        };
        let faults_data_signature_gen2 = match faults_data_signature_gen2 {
            Some(v) => v,
            None => return Err(ParseError::MissingBlock),
        };
        let driver_activity_data_gen2 = match driver_activity_data_gen2 {
            Some(v) => v,
            None => return Err(ParseError::MissingBlock),
        };
        let driver_activity_data_signature_gen2 = match driver_activity_data_signature_gen2 {
            Some(v) => v,
            None => return Err(ParseError::MissingBlock),
        };
        let vehicles_used_gen2 = match vehicles_used_gen2 {
            Some(v) => v,
            None => return Err(ParseError::MissingBlock),
        };
        let vehicles_used_signature_gen2 = match vehicles_used_signature_gen2 {
            Some(v) => v,
            None => return Err(ParseError::MissingBlock),
        };
        let places_gen2 = match places_gen2 {
            Some(v) => v,
            None => return Err(ParseError::MissingBlock),
        };
        let places_signature_gen2 = match places_signature_gen2 {
            Some(v) => v,
            None => return Err(ParseError::MissingBlock),
        };
        let control_activity_data_gen2 = match control_activity_data_gen2 {
            Some(v) => v,
            None => return Err(ParseError::MissingBlock),
        };
        let control_activity_data_signature_gen2 = match control_activity_data_signature_gen2 {
            Some(v) => v,
            None => return Err(ParseError::MissingBlock),
        };
        let specific_conditions_gen2 = match specific_conditions_gen2 {
            Some(v) => v,
            None => return Err(ParseError::MissingBlock),
        };
        let specific_conditions_signature_gen2 = match specific_conditions_signature_gen2 {
            Some(v) => v,
            None => return Err(ParseError::MissingBlock),
        };
        let vehicle_units_used_gen2 = match vehicle_units_used_gen2 {
            Some(v) => v,
            None => return Err(ParseError::MissingBlock),
        };
        let vehicle_units_used_signature_gen2 = match vehicle_units_used_signature_gen2 {
            Some(v) => v,
            None => return Err(ParseError::MissingBlock),
        };
        let gnss_accumulated_driving_gen2 = match gnss_accumulated_driving_gen2 {
            Some(v) => v,
            None => return Err(ParseError::MissingBlock),
        };
        let gnss_places_signature_gen2 = match gnss_places_signature_gen2 {
            Some(v) => v,
            None => return Err(ParseError::MissingBlock),
        };
        let gen2_blocks = CardGen2Blocks { card_icc_identification: card_icc_identification_gen2, card_chip_identification: card_chip_identification_gen2, application_identification: application_identification_gen2, application_identification_signature: application_identification_signature_gen2, card_sign_certificate: card_sign_certificate_gen2, ca_certificate: ca_certificate_gen2, link_certificate: link_certificate_gen2, identification: identification_gen2, identification_signature: identification_signature_gen2, card_download: card_download_gen2, card_download_signature: card_download_signature_gen2, driver_licence_info: driver_licence_info_gen2, driver_licence_info_signature: driver_licence_info_signature_gen2, events_data: events_data_gen2, events_data_signature: events_data_signature_gen2, faults_data: faults_data_gen2, faults_data_signature: faults_data_signature_gen2, driver_activity_data: driver_activity_data_gen2, driver_activity_data_signature: driver_activity_data_signature_gen2, vehicles_used: vehicles_used_gen2, vehicles_used_signature: vehicles_used_signature_gen2, places: places_gen2, places_signature: places_signature_gen2, current_usage: current_usage_gen2, current_usage_signature: current_usage_signature_gen2, control_activity_data: control_activity_data_gen2, control_activity_data_signature: control_activity_data_signature_gen2, specific_conditions: specific_conditions_gen2, specific_conditions_signature: specific_conditions_signature_gen2, vehicle_units_used: vehicle_units_used_gen2, vehicle_units_used_signature: vehicle_units_used_signature_gen2, gnss_accumulated_driving: gnss_accumulated_driving_gen2, gnss_places_signature: gnss_places_signature_gen2 };
        Ok(CardData::Gen2 { gen1_blocks, gen2_blocks })
    }
}

/// The entries that are read follow one another: the header of the `k`-th
/// is read, it stands before the next, and the entries from it on number
/// the rest of the count.
pub proof fn lemma_card_entries_read(d: Seq<u8>, k: nat)
    requires
        k < card_count(d),
    ensures
        card_entry_read(d, card_entry_pos(d, k)),
        card_entry_pos(d, k) < card_entry_pos(d, k + 1),
        card_scan(d, card_entry_pos(d, k)) == card_count(d) - k,
    decreases k,
{
    if k > 0 {
        lemma_card_entries_read(d, (k - 1) as nat);
    }
    let q = card_entry_pos(d, k);
    assert(card_scan(d, q) > 0);
    assert(card_entry_read(d, q) && q < card_next(d, q));
    assert(card_entry_pos(d, k + 1) == card_next(d, q));
}

/// Every entry read after the first stands at position 3 or later.
pub proof fn lemma_card_entry_after_first(d: Seq<u8>, k: nat)
    requires
        1 <= k < card_count(d),
    ensures
        card_entry_pos(d, k) >= 3,
    decreases k,
{
    lemma_card_entries_read(d, (k - 1) as nat);
    if k > 1 {
        lemma_card_entry_after_first(d, (k - 1) as nat);
    }
}

/// The last entry among the first `k` that names file `s` of type `f` is one
/// of them, the `j`-th.
pub proof fn lemma_card_last_entry_index(d: Seq<u8>, k: nat, s: int, f: int) -> (j: nat)
    requires
        card_last_entry(d, k, s, f) is Some,
    ensures
        j < k,
        card_entry_pos(d, j) == card_last_entry(d, k, s, f)->0,
        be16(d, card_entry_pos(d, j)) == s,
        d[card_entry_pos(d, j) + 2] == f,
    decreases k,
{
    let q = card_entry_pos(d, (k - 1) as nat);
    if be16(d, q) == s && d[q + 2] == f {
        (k - 1) as nat
    } else {
        lemma_card_last_entry_index(d, (k - 1) as nat, s, f)
    }
}


} // verus!
