//! The dynamically typed scalar: a type tag and a payload of bytes.
//!
//! The payload of a number is the number's bytes in a byte order, which
//! for the engine is that of the machine; the payload of a string is its
//! UTF-8 bytes, and that of a blob the blob.

use vstd::prelude::*;
use vstd::string::*;
use vstd::utf8::{decode_utf8, encode_utf8, valid_utf8};
use crate::bytes::{
    append_uint, lemma_pow256, lemma_signed_round_trip, lemma_uint_round_trip, pow256, read_uint,
    to_signed, to_unsigned, uint_bytes, uint_value, ByteOrder,
};
use crate::error::{ConversionError, ConversionErrorView};
use crate::logical_type::LogicalTypeID;
use crate::temporal::{
    date_in_range, date_time_in_range, interval_days, interval_exact, interval_micros,
    interval_months, interval_nanos, lemma_interval_round_trip, trunc_div, Date, DateTime,
    Duration,
};
use crate::value::{clone_bytes, RDFVariant, RDFVariantView};

verus! {

/// Reads bytes as UTF-8 with std's `String::from_utf8`.  Claims what its
/// documentation says: the string of these bytes comes back if they are
/// valid UTF-8, and the bytes themselves if they are not.
#[verifier::external_body]
fn string_from_utf8(bytes: Vec<u8>) -> (r: Result<String, Vec<u8>>)
    ensures
        match r {
            Ok(s) => valid_utf8(bytes@) && s@ == decode_utf8(bytes@),
            Err(b) => !valid_utf8(bytes@) && b@ == bytes@,
        },
{
    String::from_utf8(bytes).map_err(|e| e.into_bytes())
}

/// The type tag of a scalar.
pub open spec fn variant_tag(v: RDFVariantView) -> LogicalTypeID {
    match v {
        RDFVariantView::Bool(_) => LogicalTypeID::BOOL,
        RDFVariantView::Int8(_) => LogicalTypeID::INT8,
        RDFVariantView::Int16(_) => LogicalTypeID::INT16,
        RDFVariantView::Int32(_) => LogicalTypeID::INT32,
        RDFVariantView::Int64(_) => LogicalTypeID::INT64,
        RDFVariantView::UInt8(_) => LogicalTypeID::UINT8,
        RDFVariantView::UInt16(_) => LogicalTypeID::UINT16,
        RDFVariantView::UInt32(_) => LogicalTypeID::UINT32,
        RDFVariantView::UInt64(_) => LogicalTypeID::UINT64,
        RDFVariantView::Double(_) => LogicalTypeID::DOUBLE,
        RDFVariantView::Float(_) => LogicalTypeID::FLOAT,
        RDFVariantView::Date(_) => LogicalTypeID::DATE,
        RDFVariantView::Timestamp(_) => LogicalTypeID::TIMESTAMP,
        RDFVariantView::Interval(_) => LogicalTypeID::INTERVAL,
        RDFVariantView::String(_) => LogicalTypeID::STRING,
        RDFVariantView::Blob(_) => LogicalTypeID::BLOB,
    }
}

/// The bytes of a signed number of `width` bytes, in a byte order.
pub open spec fn int_bytes(x: int, width: nat, order: ByteOrder) -> Seq<u8> {
    uint_bytes(to_unsigned(x, width), width, order)
}

/// The signed number that bytes in a byte order stand for.
pub open spec fn int_value(bytes: Seq<u8>, order: ByteOrder) -> int {
    to_signed(uint_value(bytes, order), bytes.len())
}

/// The payload of a scalar.
///
/// A boolean is one byte, 1 or 0.  A number is its bytes: one for 8 bits,
/// then 2, 4 or 8.  A date is the 4 bytes of its days from 1970-01-01; a
/// timestamp the 8 bytes of its whole microseconds from the start of
/// 1970; an interval the 4 bytes of its months, the 4 of its days and
/// the 8 of its microseconds.
pub open spec fn variant_payload(v: RDFVariantView, order: ByteOrder) -> Seq<u8> {
    match v {
        RDFVariantView::Bool(b) => seq![if b { 1u8 } else { 0u8 }],
        RDFVariantView::Int8(x) => int_bytes(x as int, 1, order),
        RDFVariantView::Int16(x) => int_bytes(x as int, 2, order),
        RDFVariantView::Int32(x) => int_bytes(x as int, 4, order),
        RDFVariantView::Int64(x) => int_bytes(x as int, 8, order),
        RDFVariantView::UInt8(x) => uint_bytes(x as int, 1, order),
        RDFVariantView::UInt16(x) => uint_bytes(x as int, 2, order),
        RDFVariantView::UInt32(x) => uint_bytes(x as int, 4, order),
        RDFVariantView::UInt64(x) => uint_bytes(x as int, 8, order),
        RDFVariantView::Double(bits) => uint_bytes(bits as int, 8, order),
        RDFVariantView::Float(bits) => uint_bytes(bits as int, 4, order),
        RDFVariantView::Date(days) => int_bytes(days, 4, order),
        RDFVariantView::Timestamp(nanos) => int_bytes(trunc_div(nanos, 1000), 8, order),
        RDFVariantView::Interval(nanos) => int_bytes(
            interval_months(nanos) as i32 as int,
            4,
            order,
        ) + int_bytes(interval_days(nanos), 4, order) + int_bytes(
            interval_micros(nanos),
            8,
            order,
        ),
        RDFVariantView::String(s) => encode_utf8(s),
        RDFVariantView::Blob(bytes) => bytes,
    }
}

/// The tags of the scalars, and for each the payloads that can be read:
/// at least one byte for a boolean and for a number of 8 bits; the exact
/// width for a wider number, a date and a timestamp; 16 bytes for an
/// interval; any bytes for a string and a blob.
pub open spec fn payload_well_formed(tag: LogicalTypeID, payload: Seq<u8>) -> bool {
    match tag {
        LogicalTypeID::BOOL | LogicalTypeID::INT8 | LogicalTypeID::UINT8 => payload.len() >= 1,
        LogicalTypeID::INT16 | LogicalTypeID::UINT16 => payload.len() == 2,
        LogicalTypeID::INT32 | LogicalTypeID::UINT32 | LogicalTypeID::FLOAT
        | LogicalTypeID::DATE => payload.len() == 4,
        LogicalTypeID::INT64 | LogicalTypeID::UINT64 | LogicalTypeID::DOUBLE
        | LogicalTypeID::TIMESTAMP => payload.len() == 8,
        LogicalTypeID::INTERVAL => payload.len() == 16,
        LogicalTypeID::STRING | LogicalTypeID::BLOB => true,
        _ => false,
    }
}

/// The scalar that a tag and a payload stand for.
///
/// A date outside the calendar is the error `Date` with the days read; a
/// timestamp outside it the error `Timestamp` with the microseconds read;
/// a string that is not UTF-8 the error `String` with the bytes.
pub open spec fn variant_decode(tag: LogicalTypeID, payload: Seq<u8>, order: ByteOrder) -> Result<
    RDFVariantView,
    ConversionErrorView,
> {
    match tag {
        LogicalTypeID::BOOL => Ok(RDFVariantView::Bool(payload[0] != 0)),
        LogicalTypeID::INT8 => Ok(RDFVariantView::Int8(to_signed(payload[0] as int, 1) as i8)),
        LogicalTypeID::UINT8 => Ok(RDFVariantView::UInt8(payload[0])),
        LogicalTypeID::INT16 => Ok(RDFVariantView::Int16(int_value(payload, order) as i16)),
        LogicalTypeID::UINT16 => Ok(RDFVariantView::UInt16(uint_value(payload, order) as u16)),
        LogicalTypeID::INT32 => Ok(RDFVariantView::Int32(int_value(payload, order) as i32)),
        LogicalTypeID::UINT32 => Ok(RDFVariantView::UInt32(uint_value(payload, order) as u32)),
        LogicalTypeID::INT64 => Ok(RDFVariantView::Int64(int_value(payload, order) as i64)),
        LogicalTypeID::UINT64 => Ok(RDFVariantView::UInt64(uint_value(payload, order) as u64)),
        LogicalTypeID::DOUBLE => Ok(RDFVariantView::Double(uint_value(payload, order) as u64)),
        LogicalTypeID::FLOAT => Ok(RDFVariantView::Float(uint_value(payload, order) as u32)),
        LogicalTypeID::DATE => {
            let days = int_value(payload, order);
            if date_in_range(days) {
                Ok(RDFVariantView::Date(days))
            } else {
                Err(ConversionErrorView::Date(days as i32))
            }
        },
        LogicalTypeID::TIMESTAMP => {
            let micros = int_value(payload, order);
            if date_time_in_range(micros * 1000) {
                Ok(RDFVariantView::Timestamp(micros * 1000))
            } else {
                Err(ConversionErrorView::Timestamp(micros as i64))
            }
        },
        LogicalTypeID::INTERVAL => Ok(
            RDFVariantView::Interval(
                interval_nanos(
                    int_value(payload.subrange(0, 4), order),
                    int_value(payload.subrange(4, 8), order),
                    int_value(payload.subrange(8, 16), order),
                ),
            ),
        ),
        LogicalTypeID::STRING => if valid_utf8(payload) {
            Ok(RDFVariantView::String(decode_utf8(payload)))
        } else {
            Err(ConversionErrorView::String(payload))
        },
        _ => Ok(RDFVariantView::Blob(payload)),
    }
}

/// The scalars that their payload holds exactly: a date and a timestamp
/// of the calendar, the timestamp in whole microseconds; an interval in
/// whole microseconds whose months fit 32 bits; and every other scalar.
pub open spec fn variant_exact(v: RDFVariantView) -> bool {
    match v {
        RDFVariantView::Date(days) => date_in_range(days),
        RDFVariantView::Timestamp(nanos) => date_time_in_range(nanos) && nanos % 1000 == 0,
        RDFVariantView::Interval(nanos) => interval_exact(nanos),
        _ => true,
    }
}

/// A scalar that its payload holds exactly is read back from its tag and
/// its payload, in either byte order.
pub proof fn lemma_variant_round_trip(v: RDFVariantView, order: ByteOrder)
    requires
        variant_exact(v),
    ensures
        payload_well_formed(variant_tag(v), variant_payload(v, order)),
        variant_decode(variant_tag(v), variant_payload(v, order), order) == Ok::<
            RDFVariantView,
            ConversionErrorView,
        >(v),
{
    lemma_pow256();
    let payload = variant_payload(v, order);
    match v {
        RDFVariantView::Bool(b) => {},
        RDFVariantView::Int8(x) => {
            lemma_int_round_trip(x as int, 1, order);
            lemma_single_byte(to_unsigned(x as int, 1), order);
        },
        RDFVariantView::Int16(x) => {
            lemma_int_round_trip(x as int, 2, order);
        },
        RDFVariantView::Int32(x) => {
            lemma_int_round_trip(x as int, 4, order);
        },
        RDFVariantView::Int64(x) => {
            lemma_int_round_trip(x as int, 8, order);
        },
        RDFVariantView::UInt8(x) => {
            lemma_uint_round_trip(x as int, Seq::empty(), 1, order);
            lemma_single_byte(x as int, order);
        },
        RDFVariantView::UInt16(x) => {
            lemma_uint_round_trip(x as int, Seq::empty(), 2, order);
        },
        RDFVariantView::UInt32(x) => {
            lemma_uint_round_trip(x as int, Seq::empty(), 4, order);
        },
        RDFVariantView::UInt64(x) => {
            lemma_uint_round_trip(x as int, Seq::empty(), 8, order);
        },
        RDFVariantView::Double(x) => {
            lemma_uint_round_trip(x as int, Seq::empty(), 8, order);
        },
        RDFVariantView::Float(x) => {
            lemma_uint_round_trip(x as int, Seq::empty(), 4, order);
        },
        RDFVariantView::Date(days) => {
            lemma_int_round_trip(days, 4, order);
        },
        RDFVariantView::Timestamp(nanos) => {
            lemma_int_round_trip(trunc_div(nanos, 1000), 8, order);
        },
        RDFVariantView::Interval(nanos) => {
            lemma_interval_round_trip(nanos);
            let months = interval_months(nanos) as i32 as int;
            let days = interval_days(nanos);
            let micros = interval_micros(nanos);
            lemma_int_round_trip(months, 4, order);
            lemma_int_round_trip(days, 4, order);
            lemma_int_round_trip(micros, 8, order);
            assert(payload.subrange(0, 4) =~= int_bytes(months, 4, order));
            assert(payload.subrange(4, 8) =~= int_bytes(days, 4, order));
            assert(payload.subrange(8, 16) =~= int_bytes(micros, 8, order));
        },
        RDFVariantView::String(s) => {
            vstd::utf8::encode_utf8_valid_utf8(s);
            vstd::utf8::encode_utf8_decode_utf8(s);
        },
        RDFVariantView::Blob(bytes) => {},
    }
}

/// Only a scalar that its payload holds exactly is read back from its
/// tag and its payload.
pub proof fn lemma_variant_round_trip_only(v: RDFVariantView, order: ByteOrder)
    requires
        variant_decode(variant_tag(v), variant_payload(v, order), order) == Ok::<
            RDFVariantView,
            ConversionErrorView,
        >(v),
    ensures
        variant_exact(v),
{
    lemma_pow256();
    let payload = variant_payload(v, order);
    match v {
        RDFVariantView::Date(days) => {
            lemma_uint_round_trip(0, payload, 4, order);
            lemma_uint_round_trip(to_unsigned(days, 4), payload, 4, order);
        },
        RDFVariantView::Timestamp(nanos) => {
            lemma_uint_round_trip(0, payload, 8, order);
            lemma_uint_round_trip(to_unsigned(trunc_div(nanos, 1000), 8), payload, 8, order);
        },
        RDFVariantView::Interval(nanos) => {
            let months = interval_months(nanos) as i32 as int;
            let days = interval_days(nanos);
            let micros = interval_micros(nanos);
            if !interval_exact(nanos) {
                crate::temporal::lemma_interval_inexact(nanos);
                lemma_int_round_trip(months, 4, order);
                lemma_int_round_trip(days, 4, order);
                lemma_int_round_trip(micros, 8, order);
                assert(payload.subrange(0, 4) =~= int_bytes(months, 4, order));
                assert(payload.subrange(4, 8) =~= int_bytes(days, 4, order));
                assert(payload.subrange(8, 16) =~= int_bytes(micros, 8, order));
            }
        },
        _ => {},
    }
}

/// The payload of any scalar can be read under the scalar's tag.
pub proof fn lemma_payload_well_formed(v: RDFVariantView, order: ByteOrder)
    ensures
        payload_well_formed(variant_tag(v), variant_payload(v, order)),
{
    let empty = Seq::<u8>::empty();
    match v {
        RDFVariantView::Int8(x) => {
            lemma_uint_round_trip(to_unsigned(x as int, 1), empty, 1, order);
        },
        RDFVariantView::Int16(x) => {
            lemma_uint_round_trip(to_unsigned(x as int, 2), empty, 2, order);
        },
        RDFVariantView::Int32(x) => {
            lemma_uint_round_trip(to_unsigned(x as int, 4), empty, 4, order);
        },
        RDFVariantView::Int64(x) => {
            lemma_uint_round_trip(to_unsigned(x as int, 8), empty, 8, order);
        },
        RDFVariantView::UInt8(x) => {
            lemma_uint_round_trip(x as int, empty, 1, order);
        },
        RDFVariantView::UInt16(x) => {
            lemma_uint_round_trip(x as int, empty, 2, order);
        },
        RDFVariantView::UInt32(x) => {
            lemma_uint_round_trip(x as int, empty, 4, order);
        },
        RDFVariantView::UInt64(x) => {
            lemma_uint_round_trip(x as int, empty, 8, order);
        },
        RDFVariantView::Double(x) => {
            lemma_uint_round_trip(x as int, empty, 8, order);
        },
        RDFVariantView::Float(x) => {
            lemma_uint_round_trip(x as int, empty, 4, order);
        },
        RDFVariantView::Date(days) => {
            lemma_uint_round_trip(to_unsigned(days, 4), empty, 4, order);
        },
        RDFVariantView::Timestamp(nanos) => {
            lemma_uint_round_trip(to_unsigned(trunc_div(nanos, 1000), 8), empty, 8, order);
        },
        RDFVariantView::Interval(nanos) => {
            lemma_uint_round_trip(
                to_unsigned(interval_months(nanos) as i32 as int, 4),
                empty,
                4,
                order,
            );
            lemma_uint_round_trip(to_unsigned(interval_days(nanos), 4), empty, 4, order);
            lemma_uint_round_trip(to_unsigned(interval_micros(nanos), 8), empty, 8, order);
        },
        _ => {},
    }
}

/// The bytes of a signed number that fits the width stand for the
/// number.
pub proof fn lemma_int_round_trip(x: int, width: nat, order: ByteOrder)
    requires
        width > 0,
        -pow256(width) <= 2 * x < pow256(width),
    ensures
        int_bytes(x, width, order).len() == width,
        int_value(int_bytes(x, width, order), order) == x,
{
    lemma_signed_round_trip(x, 0, width);
    lemma_uint_round_trip(to_unsigned(x, width), Seq::empty(), width, order);
}

/// The one byte of a number below 256 is the number, in either byte
/// order.
pub proof fn lemma_single_byte(x: int, order: ByteOrder)
    requires
        0 <= x < 256,
    ensures
        uint_bytes(x, 1, order) == seq![x as u8],
{
    reveal_with_fuel(crate::bytes::le_bytes, 2);
    assert(crate::bytes::le_bytes(x, 1) =~= seq![x as u8]);
    assert(crate::bytes::le_bytes(x, 1).reverse() =~= seq![x as u8]);
}

/// The unsigned number with the bits of a signed number of `width`
/// bytes.
fn unsigned_of(x: i64, width: usize) -> (r: u64)
    requires
        width == 1 || width == 2 || width == 4 || width == 8,
        -pow256(width as nat) <= 2 * x < pow256(width as nat),
    ensures
        r == to_unsigned(x as int, width as nat),
        r < pow256(width as nat),
{
    proof {
        lemma_pow256();
    }
    let modulus: i128 = if width == 1 {
        0x100
    } else if width == 2 {
        0x1_0000
    } else if width == 4 {
        0x1_0000_0000
    } else {
        0x1_0000_0000_0000_0000
    };
    if x < 0 {
        ((x as i128) + modulus) as u64
    } else {
        x as u64
    }
}

/// The signed number of `width` bytes with the bits of an unsigned
/// number.
fn signed_of(u: u64, width: usize) -> (r: i64)
    requires
        width == 1 || width == 2 || width == 4 || width == 8,
        u < pow256(width as nat),
    ensures
        r == to_signed(u as int, width as nat),
        -pow256(width as nat) <= 2 * r < pow256(width as nat),
{
    proof {
        lemma_pow256();
    }
    let modulus: i128 = if width == 1 {
        0x100
    } else if width == 2 {
        0x1_0000
    } else if width == 4 {
        0x1_0000_0000
    } else {
        0x1_0000_0000_0000_0000
    };
    if 2 * (u as i128) >= modulus {
        ((u as i128) - modulus) as i64
    } else {
        u as i64
    }
}

/// Reads the signed number that the `width` bytes from `start` on stand
/// for.
fn read_int(bytes: &Vec<u8>, start: usize, width: usize, order: ByteOrder) -> (r: i64)
    requires
        width == 1 || width == 2 || width == 4 || width == 8,
        start + width <= bytes.len(),
    ensures
        r == int_value(bytes@.subrange(start as int, start + width), order),
        -pow256(width as nat) <= 2 * r < pow256(width as nat),
{
    let u = read_uint(bytes, start, width, order);
    signed_of(u, width)
}

impl RDFVariant {
    /// The type tag of this scalar.
    pub fn tag(&self) -> (r: LogicalTypeID)
        ensures
            r == variant_tag(self@),
    {
        match self {
            RDFVariant::Bool(_) => LogicalTypeID::BOOL,
            RDFVariant::Int8(_) => LogicalTypeID::INT8,
            RDFVariant::Int16(_) => LogicalTypeID::INT16,
            RDFVariant::Int32(_) => LogicalTypeID::INT32,
            RDFVariant::Int64(_) => LogicalTypeID::INT64,
            RDFVariant::UInt8(_) => LogicalTypeID::UINT8,
            RDFVariant::UInt16(_) => LogicalTypeID::UINT16,
            RDFVariant::UInt32(_) => LogicalTypeID::UINT32,
            RDFVariant::UInt64(_) => LogicalTypeID::UINT64,
            RDFVariant::Double(_) => LogicalTypeID::DOUBLE,
            RDFVariant::Float(_) => LogicalTypeID::FLOAT,
            RDFVariant::Date(_) => LogicalTypeID::DATE,
            RDFVariant::Timestamp(_) => LogicalTypeID::TIMESTAMP,
            RDFVariant::Interval(_) => LogicalTypeID::INTERVAL,
            RDFVariant::String(_) => LogicalTypeID::STRING,
            RDFVariant::Blob(_) => LogicalTypeID::BLOB,
        }
    }

    /// The payload of this scalar, in a byte order.
    pub fn payload(&self, order: ByteOrder) -> (r: Vec<u8>)
        ensures
            r@ == variant_payload(self@, order),
    {
        proof {
            lemma_pow256();
        }
        let mut out: Vec<u8> = Vec::new();
        match self {
            RDFVariant::Bool(b) => {
                out.push(if *b { 1u8 } else { 0u8 });
                assert(out@ =~= seq![if *b { 1u8 } else { 0u8 }]);
            },
            RDFVariant::Int8(x) => {
                append_uint(&mut out, unsigned_of(*x as i64, 1), 1, order);
            },
            RDFVariant::Int16(x) => {
                append_uint(&mut out, unsigned_of(*x as i64, 2), 2, order);
            },
            RDFVariant::Int32(x) => {
                append_uint(&mut out, unsigned_of(*x as i64, 4), 4, order);
            },
            RDFVariant::Int64(x) => {
                append_uint(&mut out, unsigned_of(*x, 8), 8, order);
            },
            RDFVariant::UInt8(x) => {
                append_uint(&mut out, *x as u64, 1, order);
            },
            RDFVariant::UInt16(x) => {
                append_uint(&mut out, *x as u64, 2, order);
            },
            RDFVariant::UInt32(x) => {
                append_uint(&mut out, *x as u64, 4, order);
            },
            RDFVariant::UInt64(x) => {
                append_uint(&mut out, *x, 8, order);
            },
            RDFVariant::Double(x) => {
                append_uint(&mut out, *x, 8, order);
            },
            RDFVariant::Float(x) => {
                append_uint(&mut out, *x as u64, 4, order);
            },
            RDFVariant::Date(x) => {
                append_uint(&mut out, unsigned_of(x.unix_days() as i64, 4), 4, order);
            },
            RDFVariant::Timestamp(x) => {
                let micros: i64 = (x.unix_nanos() / 1000) as i64;
                append_uint(&mut out, unsigned_of(micros, 8), 8, order);
            },
            RDFVariant::Interval(x) => {
                let (months, days, micros) = x.to_interval();
                append_uint(&mut out, unsigned_of(months as i64, 4), 4, order);
                append_uint(&mut out, unsigned_of(days as i64, 4), 4, order);
                append_uint(&mut out, unsigned_of(micros, 8), 8, order);
            },
            RDFVariant::String(x) => {
                out = x.as_str().as_bytes_vec();
            },
            RDFVariant::Blob(x) => {
                out = clone_bytes(x);
            },
        }
        assert(out@ =~= variant_payload(self@, order));
        out
    }

    /// Reads the scalar that a tag and a payload stand for.
    pub fn from_payload(tag: LogicalTypeID, payload: Vec<u8>, order: ByteOrder) -> (r: Result<
        RDFVariant,
        ConversionError,
    >)
        requires
            payload_well_formed(tag, payload@),
        ensures
            match r {
                Ok(v) => variant_decode(tag, payload@, order) == Ok::<
                    RDFVariantView,
                    ConversionErrorView,
                >(v@),
                Err(e) => variant_decode(tag, payload@, order) == Err::<
                    RDFVariantView,
                    ConversionErrorView,
                >(e@),
            },
    {
        proof {
            lemma_pow256();
            assert(payload@.subrange(0, payload@.len() as int) =~= payload@);
        }
        match tag {
            LogicalTypeID::BOOL => Ok(RDFVariant::Bool(payload[0] != 0)),
            LogicalTypeID::INT8 => Ok(RDFVariant::Int8(signed_of(payload[0] as u64, 1) as i8)),
            LogicalTypeID::UINT8 => Ok(RDFVariant::UInt8(payload[0])),
            LogicalTypeID::INT16 => Ok(RDFVariant::Int16(read_int(&payload, 0, 2, order) as i16)),
            LogicalTypeID::UINT16 => Ok(
                RDFVariant::UInt16(read_uint(&payload, 0, 2, order) as u16),
            ),
            LogicalTypeID::INT32 => Ok(RDFVariant::Int32(read_int(&payload, 0, 4, order) as i32)),
            LogicalTypeID::UINT32 => Ok(
                RDFVariant::UInt32(read_uint(&payload, 0, 4, order) as u32),
            ),
            LogicalTypeID::INT64 => Ok(RDFVariant::Int64(read_int(&payload, 0, 8, order))),
            LogicalTypeID::UINT64 => Ok(RDFVariant::UInt64(read_uint(&payload, 0, 8, order))),
            LogicalTypeID::DOUBLE => Ok(RDFVariant::Double(read_uint(&payload, 0, 8, order))),
            LogicalTypeID::FLOAT => Ok(RDFVariant::Float(read_uint(&payload, 0, 4, order) as u32)),
            LogicalTypeID::DATE => {
                let days: i32 = read_int(&payload, 0, 4, order) as i32;
                match Date::from_unix_days(days) {
                    Some(date) => Ok(RDFVariant::Date(date)),
                    None => Err(ConversionError::Date(days)),
                }
            },
            LogicalTypeID::TIMESTAMP => {
                let micros: i64 = read_int(&payload, 0, 8, order);
                match DateTime::from_unix_nanos((micros as i128) * 1000) {
                    Some(instant) => Ok(RDFVariant::Timestamp(instant)),
                    None => Err(ConversionError::Timestamp(micros)),
                }
            },
            LogicalTypeID::INTERVAL => {
                let months: i32 = read_int(&payload, 0, 4, order) as i32;
                let days: i32 = read_int(&payload, 4, 4, order) as i32;
                let micros: i64 = read_int(&payload, 8, 8, order);
                Ok(RDFVariant::Interval(Duration::from_interval(months, days, micros)))
            },
            LogicalTypeID::STRING => match string_from_utf8(payload) {
                Ok(text) => Ok(RDFVariant::String(text)),
                Err(bytes) => Err(ConversionError::String(bytes)),
            },
            _ => Ok(RDFVariant::Blob(payload)),
        }
    }

    /// Tells whether a payload can be read under a tag.
    pub fn payload_fits(tag: LogicalTypeID, payload: &Vec<u8>) -> (r: bool)
        ensures
            r == payload_well_formed(tag, payload@),
    {
        let len = payload.len();
        match tag {
            LogicalTypeID::BOOL | LogicalTypeID::INT8 | LogicalTypeID::UINT8 => len >= 1,
            LogicalTypeID::INT16 | LogicalTypeID::UINT16 => len == 2,
            LogicalTypeID::INT32 | LogicalTypeID::UINT32 | LogicalTypeID::FLOAT
            | LogicalTypeID::DATE => len == 4,
            LogicalTypeID::INT64 | LogicalTypeID::UINT64 | LogicalTypeID::DOUBLE
            | LogicalTypeID::TIMESTAMP => len == 8,
            LogicalTypeID::INTERVAL => len == 16,
            LogicalTypeID::STRING | LogicalTypeID::BLOB => true,
            _ => false,
        }
    }

    /// Reads the scalar that the number of a tag and a payload stand for,
    /// or `None` where the number names no scalar or the payload cannot
    /// be read under it.
    pub fn try_from_payload(tag: u8, payload: Vec<u8>, order: ByteOrder) -> (r: Option<
        Result<RDFVariant, ConversionError>,
    >)
        ensures
            r is Some <==> (LogicalTypeID::spec_from_repr(tag) matches Some(id)
                && payload_well_formed(id, payload@)),
            r matches Some(decoded) ==> match decoded {
                Ok(v) => variant_decode(LogicalTypeID::spec_from_repr(tag)->0, payload@, order)
                    == Ok::<RDFVariantView, ConversionErrorView>(v@),
                Err(e) => variant_decode(LogicalTypeID::spec_from_repr(tag)->0, payload@, order)
                    == Err::<RDFVariantView, ConversionErrorView>(e@),
            },
    {
        match LogicalTypeID::from_repr(tag) {
            Some(id) => {
                if RDFVariant::payload_fits(id, &payload) {
                    Some(RDFVariant::from_payload(id, payload, order))
                } else {
                    None
                }
            },
            None => None,
        }
    }
}

} // verus!
