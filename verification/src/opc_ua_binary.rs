//! The binary encoding of OPC UA: numbers, strings, times, variants and data values, all
//! little-endian, read one after the other.

use vstd::prelude::*;

use crate::bytes;
use crate::bytes::{cut, get_le16, get_le32, get_le64};
use crate::events::{PointValue, PointValueView, RawQuality};
use crate::text;
use crate::text::lossy_text;

verus! {

// ---------------------------------------------------------------------------
// Numbers
// ---------------------------------------------------------------------------

/// The signed number with the bits of an unsigned one.
pub open spec fn signed8(n: u8) -> i8 {
    if n < 0x80 {
        n as i8
    } else {
        (n - 0x100) as i8
    }
}

fn to_i8(n: u8) -> (r: i8)
    ensures
        r == signed8(n),
{
    if n < 0x80 {
        n as i8
    } else {
        (n as i16 - 0x100) as i8
    }
}

/// The signed number with the bits of an unsigned one.
pub open spec fn signed16(n: u16) -> i16 {
    if n < 0x8000 {
        n as i16
    } else {
        (n - 0x1_0000) as i16
    }
}

fn to_i16(n: u16) -> (r: i16)
    ensures
        r == signed16(n),
{
    if n < 0x8000 {
        n as i16
    } else {
        (n as i32 - 0x1_0000) as i16
    }
}

/// The signed number with the bits of an unsigned one.
pub open spec fn signed32(n: u32) -> i32 {
    if n < 0x8000_0000 {
        n as i32
    } else {
        (n - 0x1_0000_0000) as i32
    }
}

fn to_i32(n: u32) -> (r: i32)
    ensures
        r == signed32(n),
{
    if n < 0x8000_0000 {
        n as i32
    } else {
        (n as i64 - 0x1_0000_0000) as i32
    }
}

/// The signed number with the bits of an unsigned one.
pub open spec fn signed64(n: u64) -> i64 {
    if n < 0x8000_0000_0000_0000 {
        n as i64
    } else {
        (n - 0x1_0000_0000_0000_0000) as i64
    }
}

/// The signed number with the bits of an unsigned one.
pub fn to_i64(n: u64) -> (r: i64)
    ensures
        r == signed64(n),
{
    if n < 0x8000_0000_0000_0000 {
        n as i64
    } else {
        (n as i128 - 0x1_0000_0000_0000_0000) as i64
    }
}

/// The ticks, of 100 nanoseconds, from 1601 to 1970.
pub const UNIX_EPOCH_TICKS: i64 = 116_444_736_000_000_000;

/// Microseconds since 1970 for ticks of 100 nanoseconds since 1601. Times before 1970 have
/// none, and so has zero, which stands for no time.
pub open spec fn unix_micros(ticks: i64) -> Option<u64> {
    if ticks < 116_444_736_000_000_000 {
        None
    } else {
        Some(((ticks - 116_444_736_000_000_000) / 10) as u64)
    }
}

/// Microseconds since 1970 for ticks of 100 nanoseconds since 1601; none for times before 1970
/// and for zero, which stands for no time.
pub fn opcua_datetime_to_unix_us(ticks: i64) -> (r: Option<u64>)
    ensures
        r == unix_micros(ticks),
{
    if ticks < UNIX_EPOCH_TICKS {
        None
    } else {
        Some((ticks - UNIX_EPOCH_TICKS) as u64 / 10)
    }
}

// ---------------------------------------------------------------------------
// Reader
// ---------------------------------------------------------------------------

/// There are fewer bytes than were to be read.
#[derive(Debug, Clone, Copy, PartialEq, Eq, Structural)]
pub struct ReaderError;

/// Bytes that are read from the front. Its view is what is left of them. A read that fails
/// leaves them as they are.
#[derive(Debug)]
pub struct Reader<'a> {
    rest: &'a [u8],
}

impl<'a> View for Reader<'a> {
    type V = Seq<u8>;

    closed spec fn view(&self) -> Seq<u8> {
        self.rest@
    }
}

/// A value that was read, if there was one, and the bytes that are left.
pub type Read<T> = (Option<T>, Seq<u8>);

/// The result of a read without its error.
pub open spec fn value_read<T>(r: Result<T, ReaderError>) -> Option<T> {
    match r {
        Ok(v) => Some(v),
        Err(_) => None,
    }
}

/// A byte at the front.
pub open spec fn take8(b: Seq<u8>) -> Read<u8> {
    if b.len() < 1 {
        (None, b)
    } else {
        (Some(b[0]), b.skip(1))
    }
}

/// A number of two bytes at the front.
pub open spec fn take16(b: Seq<u8>) -> Read<u16> {
    if b.len() < 2 {
        (None, b)
    } else {
        (Some(bytes::le16(b, 0)), b.skip(2))
    }
}

/// A number of four bytes at the front.
pub open spec fn take32(b: Seq<u8>) -> Read<u32> {
    if b.len() < 4 {
        (None, b)
    } else {
        (Some(bytes::le32(b, 0)), b.skip(4))
    }
}

/// A number of eight bytes at the front.
pub open spec fn take64(b: Seq<u8>) -> Read<u64> {
    if b.len() < 8 {
        (None, b)
    } else {
        (Some(bytes::le64(b, 0)), b.skip(8))
    }
}

/// A string at the front: its length, negative for no string, and its bytes.
pub open spec fn take_string(b: Seq<u8>) -> Read<Option<Seq<char>>> {
    match take32(b) {
        (None, r) => (None, r),
        (Some(n), r) => if n >= 0x8000_0000 {
            (Some(None), r)
        } else if r.len() < n {
            (None, r)
        } else {
            (Some(Some(text::lossy(r.take(n as int)))), r.skip(n as int))
        },
    }
}

/// The view of a string that was read.
pub open spec fn string_read(r: Result<Option<String>, ReaderError>) -> Option<Option<Seq<char>>> {
    match r {
        Ok(s) => Some(text::opt_view(s)),
        Err(_) => None,
    }
}

impl<'a> Reader<'a> {
    /// A reader of these bytes.
    pub fn new(b: &'a [u8]) -> (r: Self)
        ensures
            r@ == b@,
    {
        Reader { rest: b }
    }

    /// How many bytes are left.
    pub fn remaining(&self) -> (r: usize)
        ensures
            r == self@.len(),
    {
        self.rest.len()
    }

    fn advance(&mut self, n: usize)
        requires
            n <= old(self)@.len(),
        ensures
            final(self)@ == old(self)@.skip(n as int),
    {
        let ghost before = self.rest@;
        self.rest = cut(self.rest, n, self.rest.len());
        assert(self.rest@ =~= before.skip(n as int));
    }

    /// Reads a byte.
    pub fn read_u8(&mut self) -> (r: Result<u8, ReaderError>)
        ensures
            (value_read(r), final(self)@) == take8(old(self)@),
    {
        if self.rest.len() < 1 {
            return Err(ReaderError);
        }
        let v = self.rest[0];
        self.advance(1);
        Ok(v)
    }

    /// Reads a number of two bytes.
    pub fn read_u16(&mut self) -> (r: Result<u16, ReaderError>)
        ensures
            (value_read(r), final(self)@) == take16(old(self)@),
    {
        if self.rest.len() < 2 {
            return Err(ReaderError);
        }
        let v = get_le16(self.rest, 0);
        self.advance(2);
        Ok(v)
    }

    /// Reads a number of four bytes.
    pub fn read_u32(&mut self) -> (r: Result<u32, ReaderError>)
        ensures
            (value_read(r), final(self)@) == take32(old(self)@),
    {
        if self.rest.len() < 4 {
            return Err(ReaderError);
        }
        let v = get_le32(self.rest, 0);
        self.advance(4);
        Ok(v)
    }

    /// Reads a number of eight bytes.
    pub fn read_u64(&mut self) -> (r: Result<u64, ReaderError>)
        ensures
            (value_read(r), final(self)@) == take64(old(self)@),
    {
        if self.rest.len() < 8 {
            return Err(ReaderError);
        }
        let v = get_le64(self.rest, 0);
        self.advance(8);
        Ok(v)
    }

    /// Reads a string.
    pub fn read_string(&mut self) -> (r: Result<Option<String>, ReaderError>)
        ensures
            (string_read(r), final(self)@) == take_string(old(self)@),
    {
        let n = match self.read_u32() {
            Ok(n) => n,
            Err(e) => {
                return Err(e);
            },
        };
        if n >= 0x8000_0000 {
            return Ok(None);
        }
        let n: usize = n as usize;
        if self.rest.len() < n {
            return Err(ReaderError);
        }
        let part = cut(self.rest, 0, n);
        assert(part@ =~= self@.take(n as int));
        let s = lossy_text(part);
        self.advance(n);
        Ok(Some(s))
    }
}

// ---------------------------------------------------------------------------
// Variants
// ---------------------------------------------------------------------------

/// A value made of what was read.
pub open spec fn made<T>(r: Read<T>, f: spec_fn(T) -> PointValueView) -> Read<PointValueView> {
    match r {
        (Some(v), rest) => (Some(f(v)), rest),
        (None, rest) => (None, rest),
    }
}

/// The scalar of a built-in type at the front. Types that are not listed are read as null,
/// with nothing taken.
pub open spec fn take_scalar(b: Seq<u8>, type_id: u8) -> Read<PointValueView> {
    if type_id == 1 {
        made(take8(b), |v: u8| PointValueView::Bool(v != 0))
    } else if type_id == 2 {
        made(take8(b), |v: u8| PointValueView::Int8(signed8(v)))
    } else if type_id == 3 {
        made(take8(b), |v: u8| PointValueView::UInt8(v))
    } else if type_id == 4 {
        made(take16(b), |v: u16| PointValueView::Int16(signed16(v)))
    } else if type_id == 5 {
        made(take16(b), |v: u16| PointValueView::UInt16(v))
    } else if type_id == 6 {
        made(take32(b), |v: u32| PointValueView::Int32(signed32(v)))
    } else if type_id == 7 {
        made(take32(b), |v: u32| PointValueView::UInt32(v))
    } else if type_id == 8 {
        made(take64(b), |v: u64| PointValueView::Int64(signed64(v)))
    } else if type_id == 9 {
        made(take64(b), |v: u64| PointValueView::UInt64(v))
    } else if type_id == 10 {
        made(take32(b), |v: u32| PointValueView::Float(v))
    } else if type_id == 11 {
        made(take64(b), |v: u64| PointValueView::Double(v))
    } else if type_id == 12 {
        made(
            take_string(b),
            |v: Option<Seq<char>>|
                match v {
                    Some(s) => PointValueView::Text(s),
                    None => PointValueView::Null,
                },
        )
    } else if type_id == 13 {
        made(
            take64(b),
            |v: u64|
                match unix_micros(signed64(v)) {
                    Some(t) => PointValueView::Timestamp(t),
                    None => PointValueView::Null,
                },
        )
    } else {
        (Some(PointValueView::Null), b)
    }
}

/// The variant at the front: a byte with its type, and its value. Arrays are read as null.
pub open spec fn take_variant(b: Seq<u8>) -> Read<PointValueView> {
    match take8(b) {
        (None, r) => (None, r),
        (Some(e), r) => if e & 0xC0 != 0 {
            (Some(PointValueView::Null), r)
        } else {
            take_scalar(r, e)
        },
    }
}

/// The view of a value that was read.
pub open spec fn point_read(r: Result<PointValue, ReaderError>) -> Option<PointValueView> {
    match r {
        Ok(v) => Some(v@),
        Err(_) => None,
    }
}

fn read_scalar(r: &mut Reader<'_>, type_id: u8) -> (v: Result<PointValue, ReaderError>)
    ensures
        (point_read(v), final(r)@) == take_scalar(old(r)@, type_id),
{
    match type_id {
        1 => match r.read_u8() {
            Ok(v) => Ok(PointValue::Bool(v != 0)),
            Err(e) => Err(e),
        },
        2 => match r.read_u8() {
            Ok(v) => Ok(PointValue::Int8(to_i8(v))),
            Err(e) => Err(e),
        },
        3 => match r.read_u8() {
            Ok(v) => Ok(PointValue::UInt8(v)),
            Err(e) => Err(e),
        },
        4 => match r.read_u16() {
            Ok(v) => Ok(PointValue::Int16(to_i16(v))),
            Err(e) => Err(e),
        },
        5 => match r.read_u16() {
            Ok(v) => Ok(PointValue::UInt16(v)),
            Err(e) => Err(e),
        },
        6 => match r.read_u32() {
            Ok(v) => Ok(PointValue::Int32(to_i32(v))),
            Err(e) => Err(e),
        },
        7 => match r.read_u32() {
            Ok(v) => Ok(PointValue::UInt32(v)),
            Err(e) => Err(e),
        },
        8 => match r.read_u64() {
            Ok(v) => Ok(PointValue::Int64(to_i64(v))),
            Err(e) => Err(e),
        },
        9 => match r.read_u64() {
            Ok(v) => Ok(PointValue::UInt64(v)),
            Err(e) => Err(e),
        },
        10 => match r.read_u32() {
            Ok(v) => Ok(PointValue::Float(v)),
            Err(e) => Err(e),
        },
        11 => match r.read_u64() {
            Ok(v) => Ok(PointValue::Double(v)),
            Err(e) => Err(e),
        },
        12 => match r.read_string() {
            Ok(Some(s)) => Ok(PointValue::Text(s)),
            Ok(None) => Ok(PointValue::Null),
            Err(e) => Err(e),
        },
        13 => match r.read_u64() {
            Ok(v) => match opcua_datetime_to_unix_us(to_i64(v)) {
                Some(t) => Ok(PointValue::Timestamp(t)),
                None => Ok(PointValue::Null),
            },
            Err(e) => Err(e),
        },
        _ => Ok(PointValue::Null),
    }
}

/// Reads a variant.
pub fn read_variant(r: &mut Reader<'_>) -> (v: Result<PointValue, ReaderError>)
    ensures
        (point_read(v), final(r)@) == take_variant(old(r)@),
{
    match r.read_u8() {
        Ok(e) => if e & 0xC0 != 0 {
            Ok(PointValue::Null)
        } else {
            read_scalar(r, e)
        },
        Err(e) => Err(e),
    }
}

// ---------------------------------------------------------------------------
// Data values
// ---------------------------------------------------------------------------

/// A value with its quality and the time that its source gave it.
#[derive(Debug)]
pub struct DataValue {
    pub value: PointValue,
    pub quality: RawQuality,
    pub source_ts: Option<u64>,
}

/// A data value as contracts speak of it.
pub struct DataValueView {
    pub value: PointValueView,
    pub quality: RawQuality,
    pub source_ts: Option<u64>,
}

impl View for DataValue {
    type V = DataValueView;

    open spec fn view(&self) -> DataValueView {
        DataValueView { value: self.value@, quality: self.quality, source_ts: self.source_ts }
    }
}

/// A part that may be there: `r` is what reading it from `b` gives.
pub open spec fn take_if<T>(there: bool, b: Seq<u8>, r: Read<T>) -> Read<Option<T>> {
    if there {
        match r {
            (Some(v), rest) => (Some(Some(v)), rest),
            (None, rest) => (None, rest),
        }
    } else {
        (Some(None), b)
    }
}

/// The data value at the front: a byte that says which parts follow, then value, status,
/// source time, its picoseconds, server time and its picoseconds.
pub open spec fn take_data_value(b: Seq<u8>) -> Read<DataValueView> {
    match take8(b) {
        (None, r) => (None, r),
        (Some(mask), r) => match take_if(mask & 0x01 != 0, r, take_variant(r)) {
            (None, r) => (None, r),
            (Some(value), r) => match take_if(mask & 0x02 != 0, r, take32(r)) {
                (None, r) => (None, r),
                (Some(status), r) => match take_if(mask & 0x04 != 0, r, take64(r)) {
                    (None, r) => (None, r),
                    (Some(source), r) => match take_if(mask & 0x10 != 0, r, take16(r)) {
                        (None, r) => (None, r),
                        (Some(_), r) => match take_if(mask & 0x08 != 0, r, take64(r)) {
                            (None, r) => (None, r),
                            (Some(_), r) => match take_if(mask & 0x20 != 0, r, take16(r)) {
                                (None, r) => (None, r),
                                (Some(_), r) => (
                                    Some(
                                        DataValueView {
                                            value: match value {
                                                Some(v) => v,
                                                None => PointValueView::Null,
                                            },
                                            quality: match status {
                                                Some(s) => RawQuality::OpcUaStatusCode(s),
                                                None => RawQuality::Unstated,
                                            },
                                            source_ts: match source {
                                                Some(t) => unix_micros(signed64(t)),
                                                None => None,
                                            },
                                        },
                                    ),
                                    r,
                                ),
                            },
                        },
                    },
                },
            },
        },
    }
}

/// The view of a data value that was read.
pub open spec fn data_value_read(r: Result<DataValue, ReaderError>) -> Option<DataValueView> {
    match r {
        Ok(v) => Some(v@),
        Err(_) => None,
    }
}

/// Reads a data value.
pub fn read_data_value(r: &mut Reader<'_>) -> (v: Result<DataValue, ReaderError>)
    ensures
        (data_value_read(v), final(r)@) == take_data_value(old(r)@),
{
    let mask = match r.read_u8() {
        Ok(m) => m,
        Err(e) => {
            return Err(e);
        },
    };
    let mut value = PointValue::Null;
    if mask & 0x01 != 0 {
        match read_variant(r) {
            Ok(v) => {
                value = v;
            },
            Err(e) => {
                return Err(e);
            },
        }
    }
    let mut quality = RawQuality::Unstated;
    if mask & 0x02 != 0 {
        match r.read_u32() {
            Ok(s) => {
                quality = RawQuality::OpcUaStatusCode(s);
            },
            Err(e) => {
                return Err(e);
            },
        }
    }
    let mut source_ts: Option<u64> = None;
    if mask & 0x04 != 0 {
        match r.read_u64() {
            Ok(t) => {
                source_ts = opcua_datetime_to_unix_us(to_i64(t));
            },
            Err(e) => {
                return Err(e);
            },
        }
    }
    if mask & 0x10 != 0 {
        if let Err(e) = r.read_u16() {
            return Err(e);
        }
    }
    if mask & 0x08 != 0 {
        if let Err(e) = r.read_u64() {
            return Err(e);
        }
    }
    if mask & 0x20 != 0 {
        if let Err(e) = r.read_u16() {
            return Err(e);
        }
    }
    Ok(DataValue { value, quality, source_ts })
}

// ---------------------------------------------------------------------------
// Laws
// ---------------------------------------------------------------------------

/// A microsecond is ten ticks: a time has a number exactly when it is not before the epoch, and
/// lies less than a microsecond behind the one that its number stands for.
pub proof fn ticks_are_tenths_of_microseconds(ticks: i64)
    ensures
        unix_micros(ticks) is Some <==> 116_444_736_000_000_000 <= ticks,
        unix_micros(ticks) matches Some(k) ==> 116_444_736_000_000_000 + 10 * k <= ticks
            < 116_444_736_000_000_000 + 10 * (k + 1),
{
}

/// A later time never has a smaller number.
pub proof fn times_keep_their_order(a: i64, b: i64)
    requires
        116_444_736_000_000_000 <= a <= b,
    ensures
        unix_micros(a)->Some_0 <= unix_micros(b)->Some_0,
{
}

/// A number at the front is taken as it was written, and what stands behind it is left.
pub proof fn numbers_are_taken_off_the_front(a: u8, x: u16, y: u32, z: u64, rest: Seq<u8>)
    ensures
        take8(seq![a] + rest) == (Some(a), rest),
        take16(bytes::le16_bytes(x) + rest) == (Some(x), rest),
        take32(bytes::le32_bytes(y) + rest) == (Some(y), rest),
        take64(bytes::le64_bytes(z) + rest) == (Some(z), rest),
{
    let none = Seq::<u8>::empty();
    bytes::little_endian_reads_back(none, x, y, z, rest);
    assert(none + bytes::le16_bytes(x) + rest =~= bytes::le16_bytes(x) + rest);
    assert(none + bytes::le32_bytes(y) + rest =~= bytes::le32_bytes(y) + rest);
    assert(none + bytes::le64_bytes(z) + rest =~= bytes::le64_bytes(z) + rest);
    assert((seq![a] + rest).skip(1) =~= rest);
    assert((bytes::le16_bytes(x) + rest).skip(2) =~= rest);
    assert((bytes::le32_bytes(y) + rest).skip(4) =~= rest);
    assert((bytes::le64_bytes(z) + rest).skip(8) =~= rest);
}

/// An optional number is taken exactly where it is there.
pub proof fn optional_number_is_taken(there: bool, x: u16, y: u32, z: u64, rest: Seq<u8>)
    ensures
        ({
            let b = bytes::with_part(there, bytes::le16_bytes(x), rest);
            take_if(there, b, take16(b)) == (Some(
                if there {
                    Some(x)
                } else {
                    None
                },
            ), rest)
        }),
        ({
            let b = bytes::with_part(there, bytes::le32_bytes(y), rest);
            take_if(there, b, take32(b)) == (Some(
                if there {
                    Some(y)
                } else {
                    None
                },
            ), rest)
        }),
        ({
            let b = bytes::with_part(there, bytes::le64_bytes(z), rest);
            take_if(there, b, take64(b)) == (Some(
                if there {
                    Some(z)
                } else {
                    None
                },
            ), rest)
        }),
{
    reveal(bytes::with_part);
    numbers_are_taken_off_the_front(0, x, y, z, rest);
}

/// A number of eight bits that was written as a variant of its type is read back.
pub proof fn byte_variants_read_back(x: i8, a: u8, rest: Seq<u8>)
    ensures
        take_variant(seq![1u8, a] + rest) == (Some(PointValueView::Bool(a != 0)), rest),
        take_variant(seq![2u8, (x as int % 0x100) as u8] + rest) == (
            Some(PointValueView::Int8(x)),
            rest,
        ),
        take_variant(seq![3u8, a] + rest) == (Some(PointValueView::UInt8(a)), rest),
{
    low_types_have_no_flags();
    let n = (x as int % 0x100) as u8;
    assert(seq![1u8, a] + rest =~= seq![1u8] + (seq![a] + rest));
    assert(seq![2u8, n] + rest =~= seq![2u8] + (seq![n] + rest));
    assert(seq![3u8, a] + rest =~= seq![3u8] + (seq![a] + rest));
    numbers_are_taken_off_the_front(a, 0, 0, 0, rest);
    numbers_are_taken_off_the_front(n, 0, 0, 0, rest);
    numbers_are_taken_off_the_front(1, 0, 0, 0, seq![a] + rest);
    numbers_are_taken_off_the_front(2, 0, 0, 0, seq![n] + rest);
    numbers_are_taken_off_the_front(3, 0, 0, 0, seq![a] + rest);
}

proof fn low_types_have_no_flags()
    ensures
        forall|e: u8| e < 64 ==> #[trigger] (e & 0xC0) == 0,
{
    assert(forall|e: u8| e < 64 ==> #[trigger] (e & 0xC0) == 0) by (bit_vector);
}

/// A number of 16 or 32 bits that was written as a variant of its type is read back; a float by its
/// bits.
pub proof fn word_variants_read_back(s: i16, u: u16, x: i32, v: u32, rest: Seq<u8>)
    ensures
        take_variant(seq![4u8] + (bytes::le16_bytes((s as int % 0x1_0000) as u16) + rest)) == (
            Some(PointValueView::Int16(s)),
            rest,
        ),
        take_variant(seq![5u8] + (bytes::le16_bytes(u) + rest)) == (
            Some(PointValueView::UInt16(u)),
            rest,
        ),
        take_variant(seq![6u8] + (bytes::le32_bytes((x as int % 0x1_0000_0000) as u32) + rest)) == (
            Some(PointValueView::Int32(x)),
            rest,
        ),
        take_variant(seq![7u8] + (bytes::le32_bytes(v) + rest)) == (
            Some(PointValueView::UInt32(v)),
            rest,
        ),
        take_variant(seq![10u8] + (bytes::le32_bytes(v) + rest)) == (
            Some(PointValueView::Float(v)),
            rest,
        ),
{
    low_types_have_no_flags();
    let a = (s as int % 0x1_0000) as u16;
    let b = (x as int % 0x1_0000_0000) as u32;
    numbers_are_taken_off_the_front(4, a, b, 0, rest);
    numbers_are_taken_off_the_front(4, u, v, 0, rest);
    numbers_are_taken_off_the_front(4, 0, 0, 0, bytes::le16_bytes(a) + rest);
    numbers_are_taken_off_the_front(5, 0, 0, 0, bytes::le16_bytes(u) + rest);
    numbers_are_taken_off_the_front(6, 0, 0, 0, bytes::le32_bytes(b) + rest);
    numbers_are_taken_off_the_front(7, 0, 0, 0, bytes::le32_bytes(v) + rest);
    numbers_are_taken_off_the_front(10, 0, 0, 0, bytes::le32_bytes(v) + rest);
}

/// A number of 64 bits that was written as a variant of its type is read back; a double by its
/// bits, and a time by the microseconds since 1970.
pub proof fn long_variants_read_back(x: i64, v: u64, micros: u64, rest: Seq<u8>)
    requires
        116_444_736_000_000_000 + 10 * micros <= 0x7FFF_FFFF_FFFF_FFFF,
    ensures
        take_variant(
            seq![8u8] + (bytes::le64_bytes((x as int % 0x1_0000_0000_0000_0000) as u64) + rest),
        ) == (Some(PointValueView::Int64(x)), rest),
        take_variant(seq![9u8] + (bytes::le64_bytes(v) + rest)) == (
            Some(PointValueView::UInt64(v)),
            rest,
        ),
        take_variant(seq![11u8] + (bytes::le64_bytes(v) + rest)) == (
            Some(PointValueView::Double(v)),
            rest,
        ),
        take_variant(
            seq![13u8] + (bytes::le64_bytes((116_444_736_000_000_000 + 10 * micros) as u64) + rest),
        ) == (Some(PointValueView::Timestamp(micros)), rest),
{
    low_types_have_no_flags();
    let a = (x as int % 0x1_0000_0000_0000_0000) as u64;
    let t = (116_444_736_000_000_000 + 10 * micros) as u64;
    numbers_are_taken_off_the_front(8, 0, 0, a, rest);
    numbers_are_taken_off_the_front(8, 0, 0, v, rest);
    numbers_are_taken_off_the_front(8, 0, 0, t, rest);
    numbers_are_taken_off_the_front(8, 0, 0, 0, bytes::le64_bytes(a) + rest);
    numbers_are_taken_off_the_front(9, 0, 0, 0, bytes::le64_bytes(v) + rest);
    numbers_are_taken_off_the_front(11, 0, 0, 0, bytes::le64_bytes(v) + rest);
    numbers_are_taken_off_the_front(13, 0, 0, 0, bytes::le64_bytes(t) + rest);
}

/// A text that was written as a variant, its length before it, is read back; a length of minus one
/// stands for no text. A variant of another type, and an array, is read as nothing.
pub proof fn other_variants_read_back(t: Seq<u8>, e: u8, rest: Seq<u8>)
    requires
        t.len() < 0x8000_0000,
    ensures
        take_variant(seq![12u8] + (bytes::le32_bytes(t.len() as u32) + (t + rest))) == (
            Some(PointValueView::Text(text::lossy(t))),
            rest,
        ),
        take_variant(seq![12u8] + (bytes::le32_bytes(0xFFFF_FFFF) + rest)) == (
            Some(PointValueView::Null),
            rest,
        ),
        e == 0 || e > 13 ==> take_variant(seq![e] + rest) == (Some(PointValueView::Null), rest),
{
    low_types_have_no_flags();
    let n = t.len() as u32;
    numbers_are_taken_off_the_front(12, 0, n, 0, t + rest);
    numbers_are_taken_off_the_front(12, 0, 0xFFFF_FFFF, 0, rest);
    numbers_are_taken_off_the_front(12, 0, 0, 0, bytes::le32_bytes(n) + (t + rest));
    numbers_are_taken_off_the_front(12, 0, 0, 0, bytes::le32_bytes(0xFFFF_FFFF) + rest);
    numbers_are_taken_off_the_front(e, 0, 0, 0, rest);
    assert((t + rest).take(n as int) =~= t);
    assert((t + rest).skip(n as int) =~= rest);
}

proof fn value_part_is_taken(there: bool, value: u32, rest: Seq<u8>)
    ensures
        ({
            let b = bytes::with_part(there, seq![7u8] + bytes::le32_bytes(value), rest);
            take_if(there, b, take_variant(b)) == (
                Some(
                    if there {
                        Some(PointValueView::UInt32(value))
                    } else {
                        None
                    },
                ),
                rest,
            )
        }),
{
    reveal(bytes::with_part);
    if there {
        word_variants_read_back(0, 0, 0, value, rest);
        assert(seq![7u8] + bytes::le32_bytes(value) + rest =~= seq![7u8] + (bytes::le32_bytes(value)
            + rest));
    }
}

proof fn data_value_by_parts(
    b: Seq<u8>,
    mask: u8,
    p1: Seq<u8>,
    value: Option<PointValueView>,
    p2: Seq<u8>,
    status: Option<u32>,
    p3: Seq<u8>,
    source: Option<u64>,
    p4: Seq<u8>,
    source_pico: Option<u16>,
    p5: Seq<u8>,
    server: Option<u64>,
    p6: Seq<u8>,
    server_pico: Option<u16>,
    rest: Seq<u8>,
)
    requires
        take8(b) == (Some(mask), p1),
        take_if(mask & 0x01 != 0, p1, take_variant(p1)) == (Some(value), p2),
        take_if(mask & 0x02 != 0, p2, take32(p2)) == (Some(status), p3),
        take_if(mask & 0x04 != 0, p3, take64(p3)) == (Some(source), p4),
        take_if(mask & 0x10 != 0, p4, take16(p4)) == (Some(source_pico), p5),
        take_if(mask & 0x08 != 0, p5, take64(p5)) == (Some(server), p6),
        take_if(mask & 0x20 != 0, p6, take16(p6)) == (Some(server_pico), rest),
    ensures
        take_data_value(b) == (
            Some(
                DataValueView {
                    value: match value {
                        Some(v) => v,
                        None => PointValueView::Null,
                    },
                    quality: match status {
                        Some(s) => RawQuality::OpcUaStatusCode(s),
                        None => RawQuality::Unstated,
                    },
                    source_ts: match source {
                        Some(t) => unix_micros(signed64(t)),
                        None => None,
                    },
                },
            ),
            rest,
        ),
{
}

/// A data value is its mask and the parts that the mask names, each in its place: an unsigned
/// number as its value, the status, the source time with its picoseconds, the server time with
/// its picoseconds. Status and source time are given back, and nothing of it is left.
pub proof fn data_values_have_their_parts(
    mask: u8,
    value: u32,
    status: u32,
    source: u64,
    source_pico: u16,
    server: u64,
    server_pico: u16,
    rest: Seq<u8>,
)
    requires
        116_444_736_000_000_000 <= source <= 0x7FFF_FFFF_FFFF_FFFF,
    ensures
        ({
            let p6 = bytes::with_part(mask & 0x20 != 0, bytes::le16_bytes(server_pico), rest);
            let p5 = bytes::with_part(mask & 0x08 != 0, bytes::le64_bytes(server), p6);
            let p4 = bytes::with_part(mask & 0x10 != 0, bytes::le16_bytes(source_pico), p5);
            let p3 = bytes::with_part(mask & 0x04 != 0, bytes::le64_bytes(source), p4);
            let p2 = bytes::with_part(mask & 0x02 != 0, bytes::le32_bytes(status), p3);
            let p1 = bytes::with_part(mask & 0x01 != 0, seq![7u8] + bytes::le32_bytes(value), p2);
            let b = seq![mask] + p1;
            take_data_value(b) == (
                Some(
                    DataValueView {
                        value: if mask & 0x01 != 0 {
                            PointValueView::UInt32(value)
                        } else {
                            PointValueView::Null
                        },
                        quality: if mask & 0x02 != 0 {
                            RawQuality::OpcUaStatusCode(status)
                        } else {
                            RawQuality::Unstated
                        },
                        source_ts: if mask & 0x04 != 0 {
                            Some(((source - 116_444_736_000_000_000) / 10) as u64)
                        } else {
                            None
                        },
                    },
                ),
                rest,
            )
        }),
{
    let p6 = bytes::with_part(mask & 0x20 != 0, bytes::le16_bytes(server_pico), rest);
    let p5 = bytes::with_part(mask & 0x08 != 0, bytes::le64_bytes(server), p6);
    let p4 = bytes::with_part(mask & 0x10 != 0, bytes::le16_bytes(source_pico), p5);
    let p3 = bytes::with_part(mask & 0x04 != 0, bytes::le64_bytes(source), p4);
    let p2 = bytes::with_part(mask & 0x02 != 0, bytes::le32_bytes(status), p3);
    let p1 = bytes::with_part(mask & 0x01 != 0, seq![7u8] + bytes::le32_bytes(value), p2);
    numbers_are_taken_off_the_front(mask, 0, 0, 0, p1);
    value_part_is_taken(mask & 0x01 != 0, value, p2);
    optional_number_is_taken(mask & 0x02 != 0, 0, status, 0, p3);
    optional_number_is_taken(mask & 0x04 != 0, 0, 0, source, p4);
    optional_number_is_taken(mask & 0x10 != 0, source_pico, 0, 0, p5);
    optional_number_is_taken(mask & 0x08 != 0, 0, 0, server, p6);
    optional_number_is_taken(mask & 0x20 != 0, server_pico, 0, 0, rest);
    data_value_by_parts(
        seq![mask] + p1,
        mask,
        p1,
        take_if(mask & 0x01 != 0, p1, take_variant(p1)).0->Some_0,
        p2,
        take_if(mask & 0x02 != 0, p2, take32(p2)).0->Some_0,
        p3,
        take_if(mask & 0x04 != 0, p3, take64(p3)).0->Some_0,
        p4,
        take_if(mask & 0x10 != 0, p4, take16(p4)).0->Some_0,
        p5,
        take_if(mask & 0x08 != 0, p5, take64(p5)).0->Some_0,
        p6,
        take_if(mask & 0x20 != 0, p6, take16(p6)).0->Some_0,
        rest,
    );
}

} // verus!
