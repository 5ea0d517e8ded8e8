//! A position-tracking reader over a byte slice, and the `Parse` protocol
//! that every tachograph data type follows.
//!
//! All specifications are written over absolute positions: a parse that
//! starts at position `p` of the data `d` either succeeds or fails, and in
//! both cases leaves the reader at a position that the type's spec states.
//! A read of `n` bytes that runs past the end of the data fails and leaves
//! the reader at the end of the data.
use vstd::prelude::*;
use vstd::slice::{slice_subrange, slice_to_vec};

verus! {

/// Why a parse failed.
#[derive(Debug, Clone, Copy, PartialEq, Eq, Structural)]
pub enum ParseError {
    /// The data ended before a value was complete.
    UnexpectedEnd,
    /// A value was read but is not allowed by the specification.
    InvalidValue,
    /// A block that the file must contain was not found.
    MissingBlock,
    /// A block that may occur once occurred twice.
    DuplicateBlock,
    /// The data does not start like any supported tachograph file.
    UnsupportedFileType,
}

/// `n` bytes are available at position `p` of `d`.
pub open spec fn bytes_ok(d: Seq<u8>, p: int, n: int) -> bool {
    0 <= p && 0 <= n && p + n <= d.len()
}

/// Where a read of `n` bytes at `p` leaves the reader: after the bytes, or at
/// the end of the data when they are not all there.
pub open spec fn bytes_end(d: Seq<u8>, p: int, n: int) -> int {
    if bytes_ok(d, p, n) {
        p + n
    } else {
        d.len() as int
    }
}

/// Big-endian unsigned value of the two bytes at `p`.
pub open spec fn be16(d: Seq<u8>, p: int) -> int {
    d[p] * 256 + d[p + 1]
}

/// Big-endian unsigned value of the three bytes at `p`.
pub open spec fn be24(d: Seq<u8>, p: int) -> int {
    d[p] * 65536 + d[p + 1] * 256 + d[p + 2]
}

/// Big-endian unsigned value of the four bytes at `p`.
pub open spec fn be32(d: Seq<u8>, p: int) -> int {
    d[p] * 16777216 + d[p + 1] * 65536 + d[p + 2] * 256 + d[p + 3]
}

/// A reader over a byte slice.
pub struct Cursor<'a> {
    data: &'a [u8],
    pos: usize,
}

impl<'a> Cursor<'a> {
    #[verifier::type_invariant]
    spec fn inv(self) -> bool {
        self.pos <= self.data@.len()
    }

    /// The bytes being read.
    pub closed spec fn data(self) -> Seq<u8> {
        self.data@
    }

    /// The position of the next byte to read.
    pub closed spec fn pos(self) -> int {
        self.pos as int
    }

    /// A reader at the start of `data`.
    pub fn new(data: &'a [u8]) -> (c: Self)
        ensures
            c.data() == data@,
            c.pos() == 0,
    {
        Cursor { data, pos: 0 }
    }

    /// The current position.
    pub fn position(&self) -> (r: usize)
        ensures
            r == self.pos(),
            r <= self.data().len() <= usize::MAX,
    {
        proof {
            use_type_invariant(self);
            assert(self.data@.len() == self.data.len());
        }
        self.pos
    }

    /// The number of bytes left to read.
    pub fn remaining(&self) -> (r: usize)
        ensures
            r == self.data().len() - self.pos(),
            0 <= self.pos() <= self.data().len(),
    {
        proof {
            use_type_invariant(self);
        }
        self.data.len() - self.pos
    }

    /// Whether at least one byte is left.
    pub fn has_remaining(&self) -> (r: bool)
        ensures
            r == (self.pos() < self.data().len()),
            0 <= self.pos() <= self.data().len(),
    {
        proof {
            use_type_invariant(self);
        }
        self.pos < self.data.len()
    }

    /// Moves the reader to `pos`.
    pub fn set_position(&mut self, pos: usize)
        requires
            pos <= old(self).data().len(),
        ensures
            final(self).data() == old(self).data(),
            final(self).pos() == pos,
    {
        self.pos = pos;
    }

    /// Reads one byte.
    pub fn read_u8(&mut self) -> (res: Result<u8, ParseError>)
        ensures
            final(self).data() == old(self).data(),
            old(self).pos() <= final(self).pos() <= final(self).data().len(),
            final(self).pos() == bytes_end(old(self).data(), old(self).pos(), 1),
            res is Ok <==> bytes_ok(old(self).data(), old(self).pos(), 1),
            res matches Ok(v) ==> v == old(self).data()[old(self).pos()],
            res matches Err(e) ==> e == ParseError::UnexpectedEnd,
    {
        proof {
            use_type_invariant(&*self);
        }
        if self.pos < self.data.len() {
            let v = self.data[self.pos];
            self.pos = self.pos + 1;
            Ok(v)
        } else {
            self.pos = self.data.len();
            Err(ParseError::UnexpectedEnd)
        }
    }

    /// Reads a big-endian 16-bit value.
    pub fn read_u16_be(&mut self) -> (res: Result<u16, ParseError>)
        ensures
            final(self).data() == old(self).data(),
            old(self).pos() <= final(self).pos() <= final(self).data().len(),
            final(self).pos() == bytes_end(old(self).data(), old(self).pos(), 2),
            res is Ok <==> bytes_ok(old(self).data(), old(self).pos(), 2),
            res matches Ok(v) ==> v == be16(old(self).data(), old(self).pos()),
            res matches Err(e) ==> e == ParseError::UnexpectedEnd,
    {
        proof {
            use_type_invariant(&*self);
        }
        if self.data.len() - self.pos >= 2 {
            let b0 = self.data[self.pos] as u16;
            let b1 = self.data[self.pos + 1] as u16;
            self.pos = self.pos + 2;
            Ok(b0 * 256 + b1)
        } else {
            self.pos = self.data.len();
            Err(ParseError::UnexpectedEnd)
        }
    }

    /// Reads a big-endian 24-bit value.
    pub fn read_u24_be(&mut self) -> (res: Result<u32, ParseError>)
        ensures
            final(self).data() == old(self).data(),
            old(self).pos() <= final(self).pos() <= final(self).data().len(),
            final(self).pos() == bytes_end(old(self).data(), old(self).pos(), 3),
            res is Ok <==> bytes_ok(old(self).data(), old(self).pos(), 3),
            res matches Ok(v) ==> v == be24(old(self).data(), old(self).pos()),
            res matches Err(e) ==> e == ParseError::UnexpectedEnd,
    {
        proof {
            use_type_invariant(&*self);
        }
        if self.data.len() - self.pos >= 3 {
            let b0 = self.data[self.pos] as u32;
            let b1 = self.data[self.pos + 1] as u32;
            let b2 = self.data[self.pos + 2] as u32;
            self.pos = self.pos + 3;
            Ok(b0 * 65536 + b1 * 256 + b2)
        } else {
            self.pos = self.data.len();
            Err(ParseError::UnexpectedEnd)
        }
    }

    /// Reads a big-endian 32-bit value.
    pub fn read_u32_be(&mut self) -> (res: Result<u32, ParseError>)
        ensures
            final(self).data() == old(self).data(),
            old(self).pos() <= final(self).pos() <= final(self).data().len(),
            final(self).pos() == bytes_end(old(self).data(), old(self).pos(), 4),
            res is Ok <==> bytes_ok(old(self).data(), old(self).pos(), 4),
            res matches Ok(v) ==> v == be32(old(self).data(), old(self).pos()),
            res matches Err(e) ==> e == ParseError::UnexpectedEnd,
    {
        proof {
            use_type_invariant(&*self);
        }
        if self.data.len() - self.pos >= 4 {
            let b0 = self.data[self.pos] as u32;
            let b1 = self.data[self.pos + 1] as u32;
            let b2 = self.data[self.pos + 2] as u32;
            let b3 = self.data[self.pos + 3] as u32;
            self.pos = self.pos + 4;
            Ok(b0 * 16777216 + b1 * 65536 + b2 * 256 + b3)
        } else {
            self.pos = self.data.len();
            Err(ParseError::UnexpectedEnd)
        }
    }

    /// Reads `n` bytes into a new vector.
    pub fn read_bytes(&mut self, n: usize) -> (res: Result<Vec<u8>, ParseError>)
        ensures
            final(self).data() == old(self).data(),
            old(self).pos() <= final(self).pos() <= final(self).data().len(),
            final(self).pos() == bytes_end(old(self).data(), old(self).pos(), n as int),
            res is Ok <==> bytes_ok(old(self).data(), old(self).pos(), n as int),
            res matches Ok(v) ==> v@ == old(self).data().subrange(
                old(self).pos(),
                old(self).pos() + n,
            ),
            res matches Err(e) ==> e == ParseError::UnexpectedEnd,
    {
        proof {
            use_type_invariant(&*self);
        }
        if self.data.len() - self.pos >= n {
            let s = slice_subrange(self.data, self.pos, self.pos + n);
            let v = slice_to_vec(s);
            self.pos = self.pos + n;
            Ok(v)
        } else {
            self.pos = self.data.len();
            Err(ParseError::UnexpectedEnd)
        }
    }

    /// Splits off the next `n` bytes as a reader of their own, and moves past them.
    pub fn take_exact(&mut self, n: usize) -> (res: Result<Cursor<'a>, ParseError>)
        ensures
            final(self).data() == old(self).data(),
            old(self).pos() <= final(self).pos() <= final(self).data().len(),
            final(self).pos() == bytes_end(old(self).data(), old(self).pos(), n as int),
            res is Ok <==> bytes_ok(old(self).data(), old(self).pos(), n as int),
            res matches Ok(c) ==> c.pos() == 0 && c.data() == old(self).data().subrange(
                old(self).pos(),
                old(self).pos() + n,
            ),
            res matches Err(e) ==> e == ParseError::UnexpectedEnd,
    {
        proof {
            use_type_invariant(&*self);
        }
        if self.data.len() - self.pos >= n {
            let s = slice_subrange(self.data, self.pos, self.pos + n);
            self.pos = self.pos + n;
            Ok(Cursor { data: s, pos: 0 })
        } else {
            self.pos = self.data.len();
            Err(ParseError::UnexpectedEnd)
        }
    }

    /// Moves `n` bytes forward, stopping at the end of the data.
    pub fn consume(&mut self, n: usize)
        ensures
            final(self).data() == old(self).data(),
            old(self).pos() <= final(self).pos() <= final(self).data().len(),
            final(self).pos() == if old(self).pos() + n <= old(self).data().len() {
                old(self).pos() + n
            } else {
                old(self).data().len() as int
            },
    {
        proof {
            use_type_invariant(&*self);
        }
        if self.data.len() - self.pos >= n {
            self.pos = self.pos + n;
        } else {
            self.pos = self.data.len();
        }
    }
}

/// A data type that is read from a fixed or self-describing number of bytes.
///
/// `parse_ok(d, p)` says whether the value at position `p` of `d` can be
/// read, `parse_end(d, p)` where the reader stands afterwards (whether or not
/// the read succeeded), `parsed_as(d, p, v)` that `v` is the value read, and
/// `parse_err(d, p)` the error of a read that fails.
pub trait Parse: Sized {
    spec fn parse_ok(d: Seq<u8>, p: int) -> bool;

    spec fn parse_end(d: Seq<u8>, p: int) -> int;

    spec fn parsed_as(d: Seq<u8>, p: int, v: Self) -> bool;

    spec fn parse_err(d: Seq<u8>, p: int) -> ParseError;

    fn parse(cursor: &mut Cursor) -> (res: Result<Self, ParseError>)
        ensures
            final(cursor).data() == old(cursor).data(),
            old(cursor).pos() <= final(cursor).pos(),
            final(cursor).pos() == Self::parse_end(old(cursor).data(), old(cursor).pos()),
            res is Ok <==> Self::parse_ok(old(cursor).data(), old(cursor).pos()),
            res matches Ok(v) ==> Self::parsed_as(old(cursor).data(), old(cursor).pos(), v),
            res matches Err(e) ==> e == Self::parse_err(old(cursor).data(), old(cursor).pos()),
    ;
}

/// A data type whose length is given by its container rather than by itself.
pub trait ParseDyn: Sized {
    spec fn dyn_ok(d: Seq<u8>, p: int, size: int) -> bool;

    spec fn dyn_end(d: Seq<u8>, p: int, size: int) -> int;

    spec fn dyn_as(d: Seq<u8>, p: int, size: int, v: Self) -> bool;

    spec fn dyn_err(d: Seq<u8>, p: int, size: int) -> ParseError;

    fn parse_dyn_size(cursor: &mut Cursor, size: usize) -> (res: Result<Self, ParseError>)
        ensures
            final(cursor).data() == old(cursor).data(),
            old(cursor).pos() <= final(cursor).pos(),
            final(cursor).pos() == Self::dyn_end(old(cursor).data(), old(cursor).pos(), size as int),
            res is Ok <==> Self::dyn_ok(old(cursor).data(), old(cursor).pos(), size as int),
            res matches Ok(v) ==> Self::dyn_as(old(cursor).data(), old(cursor).pos(), size as int, v),
            res matches Err(e) ==> e == Self::dyn_err(old(cursor).data(), old(cursor).pos(), size as int),
    ;
}

impl Parse for u8 {
    open spec fn parse_ok(d: Seq<u8>, p: int) -> bool {
        bytes_ok(d, p, 1)
    }

    open spec fn parse_end(d: Seq<u8>, p: int) -> int {
        bytes_end(d, p, 1)
    }

    open spec fn parse_err(d: Seq<u8>, p: int) -> ParseError {
        ParseError::UnexpectedEnd
    }

    open spec fn parsed_as(d: Seq<u8>, p: int, v: u8) -> bool {
        v == d[p]
    }

    fn parse(cursor: &mut Cursor) -> (res: Result<u8, ParseError>) {
        cursor.read_u8()
    }
}

/// Big-endian.
impl Parse for u16 {
    open spec fn parse_ok(d: Seq<u8>, p: int) -> bool {
        bytes_ok(d, p, 2)
    }

    open spec fn parse_end(d: Seq<u8>, p: int) -> int {
        bytes_end(d, p, 2)
    }

    open spec fn parse_err(d: Seq<u8>, p: int) -> ParseError {
        ParseError::UnexpectedEnd
    }

    open spec fn parsed_as(d: Seq<u8>, p: int, v: u16) -> bool {
        v == be16(d, p)
    }

    fn parse(cursor: &mut Cursor) -> (res: Result<u16, ParseError>) {
        cursor.read_u16_be()
    }
}

/// Big-endian.
impl Parse for u32 {
    open spec fn parse_ok(d: Seq<u8>, p: int) -> bool {
        bytes_ok(d, p, 4)
    }

    open spec fn parse_end(d: Seq<u8>, p: int) -> int {
        bytes_end(d, p, 4)
    }

    open spec fn parse_err(d: Seq<u8>, p: int) -> ParseError {
        ParseError::UnexpectedEnd
    }

    open spec fn parsed_as(d: Seq<u8>, p: int, v: u32) -> bool {
        v == be32(d, p)
    }

    fn parse(cursor: &mut Cursor) -> (res: Result<u32, ParseError>) {
        cursor.read_u32_be()
    }
}

/// Reads a value and keeps it only when it parsed; the reader moves on either way.
pub fn parse_optional<T: Parse>(cursor: &mut Cursor) -> (res: Option<T>)
    ensures
        final(cursor).data() == old(cursor).data(),
        old(cursor).pos() <= final(cursor).pos(),
        final(cursor).pos() == T::parse_end(old(cursor).data(), old(cursor).pos()),
        res is Some <==> T::parse_ok(old(cursor).data(), old(cursor).pos()),
        res matches Some(v) ==> T::parsed_as(old(cursor).data(), old(cursor).pos(), v),
{
    match T::parse(cursor) {
        Ok(v) => Some(v),
        Err(_) => None,
    }
}

/// `parse_optional`'s result, stated over the data.
pub open spec fn optional_as<T: Parse>(d: Seq<u8>, p: int, v: Option<T>) -> bool {
    if T::parse_ok(d, p) {
        v matches Some(x) && T::parsed_as(d, p, x)
    } else {
        v is None
    }
}

} // verus!
