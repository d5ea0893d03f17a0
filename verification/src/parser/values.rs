//! Decoding of located properties.
use vstd::prelude::*;
use vstd::utf8::*;

use crate::bytes;
use crate::guid;
use crate::guid::GUID;
use crate::native::etw_types::extended_data;
use crate::native::etw_types::extended_data::Sid;
use crate::native::tdh_types::{Property, PropertyInfo, TdhInType, TdhOutType};
use crate::native::times;
use crate::native::times::{FileTime, SystemTime};
use crate::parser;
use crate::parser::socket_address;
use crate::parser::socket_address::{IpAddr, TdhSocketAddress};
use crate::parser::{
    Lookup, LookupView, Parser, ParserError, ParserErrorView, ParserResult, PropertySlice,
};
use crate::text;

verus! {

/// Decoding of a located property into a `T`.
///
/// Working on the slice, rather than on a property name, keeps the decoding of
/// same-named properties and of structure members on their own bytes.
pub trait TryParse<'schema, 'record, T> {
    /// Whether decoding a property with this description and these bytes, which
    /// lie that far behind a multiple of the largest alignment, comes to `r`.
    spec fn decodes(info: PropertyInfo, buffer: Seq<u8>, misalignment: int, r: ParserResult<T>) -> bool;

    /// Decodes a located property.
    fn try_parse_slice(&self, prop_slice: PropertySlice<'schema, 'record>) -> (r: ParserResult<T>)
        ensures
            Self::decodes(
                prop_slice.property.info,
                prop_slice.buffer@,
                prop_slice.misalignment as int,
                r,
            ),
    ;
}

/// What decoding a scalar of `size` bytes with the given value comes to.
pub open spec fn scalar<T>(
    info: PropertyInfo,
    buffer: Seq<u8>,
    size: nat,
    value: T,
    r: ParserResult<T>,
) -> bool {
    match r {
        Ok(v) => info is Value && buffer.len() == size && v == value,
        Err(e) => e@ == if info is Value {
            ParserErrorView::LengthMismatch
        } else {
            ParserErrorView::InvalidType
        } && (info is Value ==> buffer.len() != size),
    }
}

/// The error of reading `size` bytes as a scalar, if there is one.
fn check_scalar(prop_slice: PropertySlice, size: usize) -> (r: ParserResult<()>)
    ensures
        match r {
            Ok(_) => prop_slice.property.info is Value && prop_slice.buffer@.len() == size,
            Err(e) => e@ == if prop_slice.property.info is Value {
                ParserErrorView::LengthMismatch
            } else {
                ParserErrorView::InvalidType
            } && (prop_slice.property.info is Value ==> prop_slice.buffer@.len() != size),
        },
{
    match &prop_slice.property.info {
        PropertyInfo::Value { .. } => if prop_slice.buffer.len() != size {
            Err(ParserError::LengthMismatch)
        } else {
            Ok(())
        },
        _ => Err(ParserError::InvalidType),
    }
}

/// The signed number with the same bits.
pub open spec fn signed8(v: u8) -> i8 {
    (if v < 0x80 {
        v as int
    } else {
        v - 0x100
    }) as i8
}

/// The signed number with the same bits.
pub open spec fn signed16(v: u16) -> i16 {
    (if v < 0x8000 {
        v as int
    } else {
        v - 0x1_0000
    }) as i16
}

/// The signed number with the same bits.
pub open spec fn signed32(v: u32) -> i32 {
    (if v < 0x8000_0000 {
        v as int
    } else {
        v - 0x1_0000_0000
    }) as i32
}

/// The signed number with the same bits.
pub open spec fn signed64(v: u64) -> i64 {
    (if v < 0x8000_0000_0000_0000 {
        v as int
    } else {
        v - 0x1_0000_0000_0000_0000
    }) as i64
}

fn to_signed8(v: u8) -> (r: i8)
    ensures
        r == signed8(v),
{
    if v < 0x80 {
        v as i8
    } else {
        (v as i16 - 0x100) as i8
    }
}

fn to_signed16(v: u16) -> (r: i16)
    ensures
        r == signed16(v),
{
    if v < 0x8000 {
        v as i16
    } else {
        (v as i32 - 0x1_0000) as i16
    }
}

fn to_signed32(v: u32) -> (r: i32)
    ensures
        r == signed32(v),
{
    if v < 0x8000_0000 {
        v as i32
    } else {
        (v as i64 - 0x1_0000_0000) as i32
    }
}

fn to_signed64(v: u64) -> (r: i64)
    ensures
        r == signed64(v),
{
    if v < 0x8000_0000_0000_0000 {
        v as i64
    } else {
        (v as i128 - 0x1_0000_0000_0000_0000) as i64
    }
}

impl<'schema, 'record> TryParse<'schema, 'record, u8> for Parser<'schema, 'record> {
    open spec fn decodes(info: PropertyInfo, buffer: Seq<u8>, misalignment: int, r: ParserResult<u8>) -> bool {
        scalar(info, buffer, 1, buffer[0], r)
    }

    fn try_parse_slice(&self, prop_slice: PropertySlice<'schema, 'record>) -> (r: ParserResult<
        u8,
    >) {
        match check_scalar(prop_slice, 1) {
            Ok(_) => Ok(prop_slice.buffer[0]),
            Err(e) => Err(e),
        }
    }
}

impl<'schema, 'record> TryParse<'schema, 'record, i8> for Parser<'schema, 'record> {
    open spec fn decodes(info: PropertyInfo, buffer: Seq<u8>, misalignment: int, r: ParserResult<i8>) -> bool {
        scalar(info, buffer, 1, signed8(buffer[0]), r)
    }

    fn try_parse_slice(&self, prop_slice: PropertySlice<'schema, 'record>) -> (r: ParserResult<
        i8,
    >) {
        match check_scalar(prop_slice, 1) {
            Ok(_) => Ok(to_signed8(prop_slice.buffer[0])),
            Err(e) => Err(e),
        }
    }
}

impl<'schema, 'record> TryParse<'schema, 'record, u16> for Parser<'schema, 'record> {
    open spec fn decodes(info: PropertyInfo, buffer: Seq<u8>, misalignment: int, r: ParserResult<u16>) -> bool {
        scalar(info, buffer, 2, bytes::u16_at(buffer, 0), r)
    }

    fn try_parse_slice(&self, prop_slice: PropertySlice<'schema, 'record>) -> (r: ParserResult<
        u16,
    >) {
        match check_scalar(prop_slice, 2) {
            Ok(_) => Ok(bytes::read_u16(prop_slice.buffer, 0)),
            Err(e) => Err(e),
        }
    }
}

impl<'schema, 'record> TryParse<'schema, 'record, i16> for Parser<'schema, 'record> {
    open spec fn decodes(info: PropertyInfo, buffer: Seq<u8>, misalignment: int, r: ParserResult<i16>) -> bool {
        scalar(info, buffer, 2, signed16(bytes::u16_at(buffer, 0)), r)
    }

    fn try_parse_slice(&self, prop_slice: PropertySlice<'schema, 'record>) -> (r: ParserResult<
        i16,
    >) {
        match check_scalar(prop_slice, 2) {
            Ok(_) => Ok(to_signed16(bytes::read_u16(prop_slice.buffer, 0))),
            Err(e) => Err(e),
        }
    }
}

impl<'schema, 'record> TryParse<'schema, 'record, u32> for Parser<'schema, 'record> {
    open spec fn decodes(info: PropertyInfo, buffer: Seq<u8>, misalignment: int, r: ParserResult<u32>) -> bool {
        scalar(info, buffer, 4, bytes::u32_at(buffer, 0), r)
    }

    fn try_parse_slice(&self, prop_slice: PropertySlice<'schema, 'record>) -> (r: ParserResult<
        u32,
    >) {
        match check_scalar(prop_slice, 4) {
            Ok(_) => Ok(bytes::read_u32(prop_slice.buffer, 0)),
            Err(e) => Err(e),
        }
    }
}

impl<'schema, 'record> TryParse<'schema, 'record, i32> for Parser<'schema, 'record> {
    open spec fn decodes(info: PropertyInfo, buffer: Seq<u8>, misalignment: int, r: ParserResult<i32>) -> bool {
        scalar(info, buffer, 4, signed32(bytes::u32_at(buffer, 0)), r)
    }

    fn try_parse_slice(&self, prop_slice: PropertySlice<'schema, 'record>) -> (r: ParserResult<
        i32,
    >) {
        match check_scalar(prop_slice, 4) {
            Ok(_) => Ok(to_signed32(bytes::read_u32(prop_slice.buffer, 0))),
            Err(e) => Err(e),
        }
    }
}

impl<'schema, 'record> TryParse<'schema, 'record, u64> for Parser<'schema, 'record> {
    open spec fn decodes(info: PropertyInfo, buffer: Seq<u8>, misalignment: int, r: ParserResult<u64>) -> bool {
        scalar(info, buffer, 8, bytes::u64_at(buffer, 0), r)
    }

    fn try_parse_slice(&self, prop_slice: PropertySlice<'schema, 'record>) -> (r: ParserResult<
        u64,
    >) {
        match check_scalar(prop_slice, 8) {
            Ok(_) => Ok(bytes::read_u64(prop_slice.buffer, 0)),
            Err(e) => Err(e),
        }
    }
}

impl<'schema, 'record> TryParse<'schema, 'record, i64> for Parser<'schema, 'record> {
    open spec fn decodes(info: PropertyInfo, buffer: Seq<u8>, misalignment: int, r: ParserResult<i64>) -> bool {
        scalar(info, buffer, 8, signed64(bytes::u64_at(buffer, 0)), r)
    }

    fn try_parse_slice(&self, prop_slice: PropertySlice<'schema, 'record>) -> (r: ParserResult<
        i64,
    >) {
        match check_scalar(prop_slice, 8) {
            Ok(_) => Ok(to_signed64(bytes::read_u64(prop_slice.buffer, 0))),
            Err(e) => Err(e),
        }
    }
}

/// A single-precision floating point value, as its bits
#[derive(Debug, Clone, Copy, PartialEq, Eq, Structural)]
pub struct FloatBits(pub u32);

/// A double-precision floating point value, as its bits
#[derive(Debug, Clone, Copy, PartialEq, Eq, Structural)]
pub struct DoubleBits(pub u64);

impl<'schema, 'record> TryParse<'schema, 'record, FloatBits> for Parser<'schema, 'record> {
    open spec fn decodes(info: PropertyInfo, buffer: Seq<u8>, misalignment: int, r: ParserResult<FloatBits>) -> bool {
        scalar(info, buffer, 4, FloatBits(bytes::u32_at(buffer, 0)), r)
    }

    fn try_parse_slice(&self, prop_slice: PropertySlice<'schema, 'record>) -> (r: ParserResult<
        FloatBits,
    >) {
        match check_scalar(prop_slice, 4) {
            Ok(_) => Ok(FloatBits(bytes::read_u32(prop_slice.buffer, 0))),
            Err(e) => Err(e),
        }
    }
}

impl<'schema, 'record> TryParse<'schema, 'record, DoubleBits> for Parser<'schema, 'record> {
    open spec fn decodes(info: PropertyInfo, buffer: Seq<u8>, misalignment: int, r: ParserResult<DoubleBits>) -> bool {
        scalar(info, buffer, 8, DoubleBits(bytes::u64_at(buffer, 0)), r)
    }

    fn try_parse_slice(&self, prop_slice: PropertySlice<'schema, 'record>) -> (r: ParserResult<
        DoubleBits,
    >) {
        match check_scalar(prop_slice, 8) {
            Ok(_) => Ok(DoubleBits(bytes::read_u64(prop_slice.buffer, 0))),
            Err(e) => Err(e),
        }
    }
}

/// What decoding an array of elements of `size` bytes comes to.
pub open spec fn array<T>(
    info: PropertyInfo,
    buffer: Seq<u8>,
    misalignment: int,
    size: nat,
    elements: Seq<T>,
    r: ParserResult<Vec<T>>,
) -> bool {
    match r {
        Ok(v) => array_error(info, buffer, misalignment, size) is None && v@ == elements,
        Err(e) => array_error(info, buffer, misalignment, size) == Some(e@),
    }
}

/// Why bytes are not an array of elements of `size` bytes, if they are not: they
/// are whole elements, at an address that suits an element.
pub open spec fn array_error(
    info: PropertyInfo,
    buffer: Seq<u8>,
    misalignment: int,
    size: nat,
) -> Option<ParserErrorView> {
    if info !is Array {
        Some(ParserErrorView::InvalidType)
    } else if buffer.len() % size != 0 {
        Some(ParserErrorView::LengthMismatch)
    } else if misalignment % size as int != 0 {
        Some(ParserErrorView::PropertyError("buffer alignment mismatch"@))
    } else {
        None
    }
}

/// The error of reading an array of elements of `size` bytes, if there is one.
fn check_array(prop_slice: PropertySlice, size: usize) -> (r: ParserResult<()>)
    requires
        size > 0,
    ensures
        ({
            let error = array_error(
                prop_slice.property.info,
                prop_slice.buffer@,
                prop_slice.misalignment as int,
                size as nat,
            );
            match r {
                Ok(_) => error is None,
                Err(e) => error == Some(e@),
            }
        }),
{
    match &prop_slice.property.info {
        PropertyInfo::Array { .. } => if prop_slice.buffer.len() % size != 0 {
            Err(ParserError::LengthMismatch)
        } else if prop_slice.misalignment % size != 0 {
            parser::property_error("buffer alignment mismatch")
        } else {
            Ok(())
        },
        _ => Err(ParserError::InvalidType),
    }
}

/// The `u16` values of a packed array.
pub open spec fn elements_u16(buffer: Seq<u8>) -> Seq<u16> {
    Seq::new((buffer.len() / 2) as nat, |i: int| bytes::u16_at(buffer, 2 * i))
}

/// The `i16` values of a packed array.
pub open spec fn elements_i16(buffer: Seq<u8>) -> Seq<i16> {
    Seq::new((buffer.len() / 2) as nat, |i: int| signed16(bytes::u16_at(buffer, 2 * i)))
}

impl<'schema, 'record> TryParse<'schema, 'record, Vec<u16>> for Parser<'schema, 'record> {
    open spec fn decodes(info: PropertyInfo, buffer: Seq<u8>, misalignment: int, r: ParserResult<Vec<u16>>) -> bool {
        array(info, buffer, misalignment, 2, elements_u16(buffer), r)
    }

    fn try_parse_slice(&self, prop_slice: PropertySlice<'schema, 'record>) -> (r: ParserResult<
        Vec<u16>,
    >) {
        match check_array(prop_slice, 2) {
            Ok(_) => {},
            Err(e) => {
                return Err(e);
            },
        }
        let n: usize = prop_slice.buffer.len() / 2;
        let ghost elements = elements_u16(prop_slice.buffer@);
        let mut v: Vec<u16> = Vec::new();
        let mut i: usize = 0;
        while i < n
            invariant
                i <= n,
                n == prop_slice.buffer@.len() / 2,
                elements == elements_u16(prop_slice.buffer@),
                v@ == elements.take(i as int),
            decreases n - i,
        {
            assert(2 * i + 2 <= prop_slice.buffer.len());
            v.push(bytes::read_u16(prop_slice.buffer, 2 * i));
            i = i + 1;
            assert(v@ =~= elements.take(i as int));
        }
        assert(elements.take(n as int) =~= elements);
        Ok(v)
    }
}

impl<'schema, 'record> TryParse<'schema, 'record, Vec<i16>> for Parser<'schema, 'record> {
    open spec fn decodes(info: PropertyInfo, buffer: Seq<u8>, misalignment: int, r: ParserResult<Vec<i16>>) -> bool {
        array(info, buffer, misalignment, 2, elements_i16(buffer), r)
    }

    fn try_parse_slice(&self, prop_slice: PropertySlice<'schema, 'record>) -> (r: ParserResult<
        Vec<i16>,
    >) {
        match check_array(prop_slice, 2) {
            Ok(_) => {},
            Err(e) => {
                return Err(e);
            },
        }
        let n: usize = prop_slice.buffer.len() / 2;
        let ghost elements = elements_i16(prop_slice.buffer@);
        let mut v: Vec<i16> = Vec::new();
        let mut i: usize = 0;
        while i < n
            invariant
                i <= n,
                n == prop_slice.buffer@.len() / 2,
                elements == elements_i16(prop_slice.buffer@),
                v@ == elements.take(i as int),
            decreases n - i,
        {
            assert(2 * i + 2 <= prop_slice.buffer.len());
            v.push(to_signed16(bytes::read_u16(prop_slice.buffer, 2 * i)));
            i = i + 1;
            assert(v@ =~= elements.take(i as int));
        }
        assert(elements.take(n as int) =~= elements);
        Ok(v)
    }
}

/// The `u32` values of a packed array.
pub open spec fn elements_u32(buffer: Seq<u8>) -> Seq<u32> {
    Seq::new((buffer.len() / 4) as nat, |i: int| bytes::u32_at(buffer, 4 * i))
}

/// The `i32` values of a packed array.
pub open spec fn elements_i32(buffer: Seq<u8>) -> Seq<i32> {
    Seq::new((buffer.len() / 4) as nat, |i: int| signed32(bytes::u32_at(buffer, 4 * i)))
}

impl<'schema, 'record> TryParse<'schema, 'record, Vec<u32>> for Parser<'schema, 'record> {
    open spec fn decodes(info: PropertyInfo, buffer: Seq<u8>, misalignment: int, r: ParserResult<Vec<u32>>) -> bool {
        array(info, buffer, misalignment, 4, elements_u32(buffer), r)
    }

    fn try_parse_slice(&self, prop_slice: PropertySlice<'schema, 'record>) -> (r: ParserResult<
        Vec<u32>,
    >) {
        match check_array(prop_slice, 4) {
            Ok(_) => {},
            Err(e) => {
                return Err(e);
            },
        }
        let n: usize = prop_slice.buffer.len() / 4;
        let ghost elements = elements_u32(prop_slice.buffer@);
        let mut v: Vec<u32> = Vec::new();
        let mut i: usize = 0;
        while i < n
            invariant
                i <= n,
                n == prop_slice.buffer@.len() / 4,
                elements == elements_u32(prop_slice.buffer@),
                v@ == elements.take(i as int),
            decreases n - i,
        {
            assert(4 * i + 4 <= prop_slice.buffer.len());
            v.push(bytes::read_u32(prop_slice.buffer, 4 * i));
            i = i + 1;
            assert(v@ =~= elements.take(i as int));
        }
        assert(elements.take(n as int) =~= elements);
        Ok(v)
    }
}

impl<'schema, 'record> TryParse<'schema, 'record, Vec<i32>> for Parser<'schema, 'record> {
    open spec fn decodes(info: PropertyInfo, buffer: Seq<u8>, misalignment: int, r: ParserResult<Vec<i32>>) -> bool {
        array(info, buffer, misalignment, 4, elements_i32(buffer), r)
    }

    fn try_parse_slice(&self, prop_slice: PropertySlice<'schema, 'record>) -> (r: ParserResult<
        Vec<i32>,
    >) {
        match check_array(prop_slice, 4) {
            Ok(_) => {},
            Err(e) => {
                return Err(e);
            },
        }
        let n: usize = prop_slice.buffer.len() / 4;
        let ghost elements = elements_i32(prop_slice.buffer@);
        let mut v: Vec<i32> = Vec::new();
        let mut i: usize = 0;
        while i < n
            invariant
                i <= n,
                n == prop_slice.buffer@.len() / 4,
                elements == elements_i32(prop_slice.buffer@),
                v@ == elements.take(i as int),
            decreases n - i,
        {
            assert(4 * i + 4 <= prop_slice.buffer.len());
            v.push(to_signed32(bytes::read_u32(prop_slice.buffer, 4 * i)));
            i = i + 1;
            assert(v@ =~= elements.take(i as int));
        }
        assert(elements.take(n as int) =~= elements);
        Ok(v)
    }
}

/// The `u64` values of a packed array.
pub open spec fn elements_u64(buffer: Seq<u8>) -> Seq<u64> {
    Seq::new((buffer.len() / 8) as nat, |i: int| bytes::u64_at(buffer, 8 * i))
}

/// The `i64` values of a packed array.
pub open spec fn elements_i64(buffer: Seq<u8>) -> Seq<i64> {
    Seq::new((buffer.len() / 8) as nat, |i: int| signed64(bytes::u64_at(buffer, 8 * i)))
}

impl<'schema, 'record> TryParse<'schema, 'record, Vec<u64>> for Parser<'schema, 'record> {
    open spec fn decodes(info: PropertyInfo, buffer: Seq<u8>, misalignment: int, r: ParserResult<Vec<u64>>) -> bool {
        array(info, buffer, misalignment, 8, elements_u64(buffer), r)
    }

    fn try_parse_slice(&self, prop_slice: PropertySlice<'schema, 'record>) -> (r: ParserResult<
        Vec<u64>,
    >) {
        match check_array(prop_slice, 8) {
            Ok(_) => {},
            Err(e) => {
                return Err(e);
            },
        }
        let n: usize = prop_slice.buffer.len() / 8;
        let ghost elements = elements_u64(prop_slice.buffer@);
        let mut v: Vec<u64> = Vec::new();
        let mut i: usize = 0;
        while i < n
            invariant
                i <= n,
                n == prop_slice.buffer@.len() / 8,
                elements == elements_u64(prop_slice.buffer@),
                v@ == elements.take(i as int),
            decreases n - i,
        {
            assert(8 * i + 8 <= prop_slice.buffer.len());
            v.push(bytes::read_u64(prop_slice.buffer, 8 * i));
            i = i + 1;
            assert(v@ =~= elements.take(i as int));
        }
        assert(elements.take(n as int) =~= elements);
        Ok(v)
    }
}

impl<'schema, 'record> TryParse<'schema, 'record, Vec<i64>> for Parser<'schema, 'record> {
    open spec fn decodes(info: PropertyInfo, buffer: Seq<u8>, misalignment: int, r: ParserResult<Vec<i64>>) -> bool {
        array(info, buffer, misalignment, 8, elements_i64(buffer), r)
    }

    fn try_parse_slice(&self, prop_slice: PropertySlice<'schema, 'record>) -> (r: ParserResult<
        Vec<i64>,
    >) {
        match check_array(prop_slice, 8) {
            Ok(_) => {},
            Err(e) => {
                return Err(e);
            },
        }
        let n: usize = prop_slice.buffer.len() / 8;
        let ghost elements = elements_i64(prop_slice.buffer@);
        let mut v: Vec<i64> = Vec::new();
        let mut i: usize = 0;
        while i < n
            invariant
                i <= n,
                n == prop_slice.buffer@.len() / 8,
                elements == elements_i64(prop_slice.buffer@),
                v@ == elements.take(i as int),
            decreases n - i,
        {
            assert(8 * i + 8 <= prop_slice.buffer.len());
            v.push(to_signed64(bytes::read_u64(prop_slice.buffer, 8 * i)));
            i = i + 1;
            assert(v@ =~= elements.take(i as int));
        }
        assert(elements.take(n as int) =~= elements);
        Ok(v)
    }
}

/// Text of a property, or the security identifier that is to be shown as text.
///
/// Turning an identifier into text takes a native call.
#[derive(Debug)]
pub enum ParsedString {
    Text(String),
    Sid(Sid),
}

/// What a [`ParsedString`] holds.
pub enum StringView {
    Text(Seq<char>),
    Sid(Seq<u8>),
}

impl View for ParsedString {
    type V = StringView;

    open spec fn view(&self) -> StringView {
        match self {
            ParsedString::Text(s) => StringView::Text(s@),
            ParsedString::Sid(sid) => StringView::Sid(sid.bytes()),
        }
    }
}

impl ParsedString {
    /// The text, `converted` being what the native call made of the identifier.
    pub fn into_text(
        self,
        converted: Result<String, crate::native::sddl::SddlNativeError>,
    ) -> (r: ParserResult<String>)
        ensures
            match self {
                ParsedString::Text(s) => r == Ok::<String, ParserError>(s),
                ParsedString::Sid(_) => match converted {
                    Ok(s) => r == Ok::<String, ParserError>(s),
                    Err(e) => r == Err::<String, ParserError>(ParserError::SddlNativeError(e)),
                },
            },
    {
        match self {
            ParsedString::Text(s) => Ok(s),
            ParsedString::Sid(_) => match converted {
                Ok(s) => Ok(s),
                Err(e) => Err(ParserError::from(e)),
            },
        }
    }
}

/// Text without count or terminator: UTF-16 when `wide`, else UTF-8.
pub open spec fn plain_text(data: Seq<u8>, wide: bool) -> Result<Seq<char>, ParserErrorView> {
    if wide {
        Ok(text::utf16_chars(text::units_of(data)))
    } else if valid_utf8(data) {
        Ok(decode_utf8(data))
    } else {
        Err(ParserErrorView::Utf8Error)
    }
}

/// Text after a 16-bit byte count.
pub open spec fn counted_text(buffer: Seq<u8>, big_endian: bool, wide: bool) -> Result<
    Seq<char>,
    ParserErrorView,
> {
    match parser::count_prefix(buffer, big_endian) {
        Ok(n) => if 2 + n <= buffer.len() {
            plain_text(buffer.subrange(2, 2 + n), wide)
        } else {
            Err(ParserErrorView::PropertyError("invalid counted string length"@))
        },
        Err(e) => Err(e),
    }
}

/// Wraps a text as the value of a property.
pub open spec fn as_text(t: Result<Seq<char>, ParserErrorView>) -> Result<
    StringView,
    ParserErrorView,
> {
    match t {
        Ok(s) => Ok(StringView::Text(s)),
        Err(e) => Err(e),
    }
}

/// The text of a scalar property.
pub open spec fn string_value(in_type: TdhInType, buffer: Seq<u8>) -> Result<
    StringView,
    ParserErrorView,
> {
    match in_type {
        TdhInType::InTypeUnicodeString => if buffer.len() % 2 != 0 {
            Err(ParserErrorView::PropertyError("odd length in bytes for a wide string"@))
        } else {
            Ok(StringView::Text(text::utf16_chars(text::until_nul(text::units_of(buffer)))))
        },
        TdhInType::InTypeAnsiString => if valid_utf8(buffer) {
            Ok(StringView::Text(text::trim_nuls(decode_utf8(buffer))))
        } else {
            Err(ParserErrorView::Utf8Error)
        },
        TdhInType::InTypeSid | TdhInType::InTypeWbemSid => if extended_data::holds_sid(buffer) {
            Ok(StringView::Sid(buffer.take(extended_data::sid_len(buffer))))
        } else {
            Err(ParserErrorView::PropertyError("SID property is truncated"@))
        },
        TdhInType::InTypeUnicodeChar => if buffer.len() == 2 {
            Ok(StringView::Text(text::utf16_chars(seq![bytes::u16_at(buffer, 0)])))
        } else {
            Err(ParserErrorView::SliceError)
        },
        TdhInType::InTypeAnsiChar => as_text(plain_text(buffer, false)),
        TdhInType::InTypeManifestCountedString | TdhInType::InTypeCountedString => as_text(
            counted_text(buffer, false, true),
        ),
        TdhInType::InTypeManifestCountedAnsiString | TdhInType::InTypeCountedAnsiString => as_text(
            counted_text(buffer, false, false),
        ),
        TdhInType::InTypeReversedCountedString => as_text(counted_text(buffer, true, true)),
        TdhInType::InTypeReversedCountedAnsiString => as_text(counted_text(buffer, true, false)),
        TdhInType::InTypeNonNullTerminatedString => as_text(plain_text(buffer, true)),
        TdhInType::InTypeNonNullTerminatedAnsiString => as_text(plain_text(buffer, false)),
        _ => Err(ParserErrorView::InvalidType),
    }
}

/// Whether `r` is the text `expected`.
pub open spec fn is_text(
    r: ParserResult<String>,
    expected: Result<Seq<char>, ParserErrorView>,
) -> bool {
    match r {
        Ok(s) => expected == Ok::<Seq<char>, ParserErrorView>(s@),
        Err(e) => expected == Err::<Seq<char>, ParserErrorView>(e@),
    }
}

/// Parses a string with neither count nor terminator: the whole payload is the
/// string. A trailing odd byte of a wide string is a truncated code unit and is
/// dropped.
pub fn parse_non_null_terminated_string(buffer: &[u8], wide: bool) -> (r: ParserResult<String>)
    ensures
        is_text(r, plain_text(buffer@, wide)),
{
    if wide {
        let units = text::code_units(buffer);
        Ok(text::decode_utf16_lossy(units.as_slice()))
    } else {
        match std::str::from_utf8(buffer) {
            Ok(s) => Ok(s.to_owned()),
            Err(e) => Err(ParserError::from(e)),
        }
    }
}

/// Decodes the payload of a counted string: `byte_count` bytes after the count.
fn decode_counted_payload(buffer: &[u8], byte_count: usize, wide: bool) -> (r: ParserResult<String>)
    requires
        buffer@.len() >= 2,
    ensures
        if 2 + byte_count <= buffer@.len() {
            is_text(r, plain_text(buffer@.subrange(2, 2 + byte_count), wide))
        } else {
            r matches Err(e) && e@ == ParserErrorView::PropertyError(
                "invalid counted string length"@,
            )
        },
{
    if byte_count > buffer.len() - 2 {
        return parser::property_error("invalid counted string length");
    }
    let data = vstd::slice::slice_subrange(buffer, 2, 2 + byte_count);
    parse_non_null_terminated_string(data, wide)
}

/// Parses a count-prefixed string: a little-endian 16-bit byte count followed by
/// the payload (UTF-16 code units when `wide`, bytes otherwise).
pub fn parse_counted_string(buffer: &[u8], wide: bool) -> (r: ParserResult<String>)
    ensures
        is_text(r, counted_text(buffer@, false, wide)),
{
    match parser::read_count_prefix(buffer, false) {
        Ok(byte_count) => decode_counted_payload(buffer, byte_count, wide),
        Err(e) => Err(e),
    }
}

/// [`parse_counted_string`] for the deprecated in types whose count is
/// big-endian.
pub fn parse_reversed_counted_string(buffer: &[u8], wide: bool) -> (r: ParserResult<String>)
    ensures
        is_text(r, counted_text(buffer@, true, wide)),
{
    match parser::read_count_prefix(buffer, true) {
        Ok(byte_count) => decode_counted_payload(buffer, byte_count, wide),
        Err(e) => Err(e),
    }
}

/// Converts a slice into an array of its length, with the conversion of std: it
/// succeeds on slices of exactly that length, and copies them.
#[verifier::external_body]
fn to_array<const N: usize>(slice: &[u8]) -> (r: Result<[u8; N], std::array::TryFromSliceError>)
    ensures
        match r {
            Ok(a) => a@ == slice@,
            Err(_) => slice@.len() != N,
        },
{
    <[u8; N]>::try_from(slice)
}

/// Wraps a decoded text.
fn text_result(r: ParserResult<String>) -> (s: ParserResult<ParsedString>)
    ensures
        match (r, s) {
            (Ok(x), Ok(y)) => y == ParsedString::Text(x),
            (Err(x), Err(y)) => x == y,
            _ => false,
        },
{
    match r {
        Ok(s) => Ok(ParsedString::Text(s)),
        Err(e) => Err(e),
    }
}

impl<'schema, 'record> TryParse<'schema, 'record, ParsedString> for Parser<'schema, 'record> {
    open spec fn decodes(
        info: PropertyInfo,
        buffer: Seq<u8>,
        misalignment: int,
        r: ParserResult<ParsedString>,
    ) -> bool {
        let expected = match info {
            PropertyInfo::Value { in_type, .. } => string_value(in_type, buffer),
            _ => Err(ParserErrorView::InvalidType),
        };
        match r {
            Ok(s) => expected == Ok::<StringView, ParserErrorView>(s@),
            Err(e) => expected == Err::<StringView, ParserErrorView>(e@),
        }
    }

    fn try_parse_slice(&self, prop_slice: PropertySlice<'schema, 'record>) -> (r: ParserResult<
        ParsedString,
    >) {
        let buffer = prop_slice.buffer;
        let in_type = match &prop_slice.property.info {
            PropertyInfo::Value { in_type, .. } => *in_type,
            _ => {
                return Err(ParserError::InvalidType);
            },
        };
        match in_type {
            TdhInType::InTypeUnicodeString => {
                if buffer.len() % 2 != 0 {
                    return parser::property_error("odd length in bytes for a wide string");
                }
                // C semantics: the string ends at its first NUL. Fixed-length
                // strings may be padded past it
                let units = text::code_units_until_nul(buffer);
                Ok(ParsedString::Text(text::decode_utf16_lossy(units.as_slice())))
            },
            TdhInType::InTypeAnsiString => match std::str::from_utf8(buffer) {
                Ok(s) => Ok(ParsedString::Text(text::trim_nul_chars(s).to_owned())),
                Err(e) => Err(ParserError::from(e)),
            },
            TdhInType::InTypeSid | TdhInType::InTypeWbemSid => match Sid::from_raw(buffer) {
                // The native conversion takes no length: it must not be handed
                // anything shorter than the header announces
                Some(sid) => Ok(ParsedString::Sid(sid)),
                None => parser::property_error("SID property is truncated"),
            },
            TdhInType::InTypeUnicodeChar => match to_array::<2>(buffer) {
                Ok(unit_bytes) => {
                    let unit: u16 = bytes::read_u16(unit_bytes.as_slice(), 0);
                    let units: Vec<u16> = vec![unit];
                    assert(units@ =~= seq![bytes::u16_at(buffer@, 0)]);
                    Ok(ParsedString::Text(text::decode_utf16_lossy(units.as_slice())))
                },
                Err(e) => Err(ParserError::from(e)),
            },
            TdhInType::InTypeAnsiChar => text_result(
                parse_non_null_terminated_string(buffer, false),
            ),
            TdhInType::InTypeManifestCountedString | TdhInType::InTypeCountedString => text_result(
                parse_counted_string(buffer, true),
            ),
            TdhInType::InTypeManifestCountedAnsiString
            | TdhInType::InTypeCountedAnsiString => text_result(
                parse_counted_string(buffer, false),
            ),
            TdhInType::InTypeReversedCountedString => text_result(
                parse_reversed_counted_string(buffer, true),
            ),
            TdhInType::InTypeReversedCountedAnsiString => text_result(
                parse_reversed_counted_string(buffer, false),
            ),
            TdhInType::InTypeNonNullTerminatedString => text_result(
                parse_non_null_terminated_string(buffer, true),
            ),
            TdhInType::InTypeNonNullTerminatedAnsiString => text_result(
                parse_non_null_terminated_string(buffer, false),
            ),
            _ => Err(ParserError::InvalidType),
        }
    }
}

/// What decoding a scalar that must pass a type test comes to.
pub open spec fn typed<T>(
    type_ok: bool,
    length_ok: bool,
    length_error: ParserErrorView,
    value: T,
    r: ParserResult<T>,
) -> bool {
    match r {
        Ok(v) => type_ok && length_ok && v == value,
        Err(e) => if type_ok {
            !length_ok && e@ == length_error
        } else {
            e@ == ParserErrorView::InvalidType
        },
    }
}

/// The in type of a scalar property.
pub open spec fn value_in_type(info: PropertyInfo) -> Option<TdhInType> {
    match info {
        PropertyInfo::Value { in_type, .. } => Some(in_type),
        _ => None,
    }
}

/// The out type of a scalar property.
pub open spec fn value_out_type(info: PropertyInfo) -> Option<TdhOutType> {
    match info {
        PropertyInfo::Value { out_type, .. } => Some(out_type),
        _ => None,
    }
}

fn get_in_type(info: &PropertyInfo) -> (r: Option<TdhInType>)
    ensures
        r == value_in_type(*info),
{
    match info {
        PropertyInfo::Value { in_type, .. } => Some(*in_type),
        _ => None,
    }
}

fn get_out_type(info: &PropertyInfo) -> (r: Option<TdhOutType>)
    ensures
        r == value_out_type(*info),
{
    match info {
        PropertyInfo::Value { out_type, .. } => Some(*out_type),
        _ => None,
    }
}

impl<'schema, 'record> TryParse<'schema, 'record, GUID> for Parser<'schema, 'record> {
    open spec fn decodes(info: PropertyInfo, buffer: Seq<u8>, misalignment: int, r: ParserResult<GUID>) -> bool {
        typed(
            value_in_type(info) == Some(TdhInType::InTypeGuid),
            buffer.len() == 16,
            ParserErrorView::LengthMismatch,
            guid::guid_at(buffer, 0),
            r,
        )
    }

    fn try_parse_slice(&self, prop_slice: PropertySlice<'schema, 'record>) -> (r: ParserResult<
        GUID,
    >) {
        match get_in_type(&prop_slice.property.info) {
            Some(TdhInType::InTypeGuid) => {},
            _ => {
                return Err(ParserError::InvalidType);
            },
        }
        if prop_slice.buffer.len() != 16 {
            return Err(ParserError::LengthMismatch);
        }
        Ok(guid::read_guid(prop_slice.buffer, 0))
    }
}

/// The address in `buffer`: 16 bytes are an IPv6 address, 4 bytes an IPv4 one.
pub open spec fn ip_of(buffer: Seq<u8>) -> IpAddr {
    if buffer.len() == 16 {
        IpAddr::V6(socket_address::u128_be_at(buffer, 0))
    } else {
        IpAddr::V4(socket_address::u32_be_at(buffer, 0))
    }
}

impl<'schema, 'record> TryParse<'schema, 'record, IpAddr> for Parser<'schema, 'record> {
    open spec fn decodes(info: PropertyInfo, buffer: Seq<u8>, misalignment: int, r: ParserResult<IpAddr>) -> bool {
        typed(
            value_out_type(info) == Some(TdhOutType::OutTypeIpv4) || value_out_type(info) == Some(
                TdhOutType::OutTypeIpv6,
            ),
            buffer.len() == 16 || buffer.len() == 4,
            ParserErrorView::LengthMismatch,
            ip_of(buffer),
            r,
        )
    }

    fn try_parse_slice(&self, prop_slice: PropertySlice<'schema, 'record>) -> (r: ParserResult<
        IpAddr,
    >) {
        match get_out_type(&prop_slice.property.info) {
            Some(TdhOutType::OutTypeIpv4) | Some(TdhOutType::OutTypeIpv6) => {},
            _ => {
                return Err(ParserError::InvalidType);
            },
        }
        let n: usize = prop_slice.buffer.len();
        if n == 16 {
            Ok(IpAddr::V6(socket_address::read_u128_be(prop_slice.buffer, 0)))
        } else if n == 4 {
            Ok(IpAddr::V4(socket_address::read_u32_be(prop_slice.buffer, 0)))
        } else {
            Err(ParserError::LengthMismatch)
        }
    }
}

/// The boolean in `buffer`: any nonzero number is true.
pub open spec fn bool_of(buffer: Seq<u8>) -> bool {
    if buffer.len() == 1 {
        buffer[0] != 0
    } else if buffer.len() == 4 {
        bytes::u32_at(buffer, 0) != 0
    } else {
        bytes::u64_at(buffer, 0) != 0
    }
}

impl<'schema, 'record> TryParse<'schema, 'record, bool> for Parser<'schema, 'record> {
    open spec fn decodes(info: PropertyInfo, buffer: Seq<u8>, misalignment: int, r: ParserResult<bool>) -> bool {
        typed(
            value_in_type(info) == Some(TdhInType::InTypeBoolean),
            buffer.len() == 1 || buffer.len() == 4 || buffer.len() == 8,
            ParserErrorView::LengthMismatch,
            bool_of(buffer),
            r,
        )
    }

    fn try_parse_slice(&self, prop_slice: PropertySlice<'schema, 'record>) -> (r: ParserResult<
        bool,
    >) {
        match get_in_type(&prop_slice.property.info) {
            Some(TdhInType::InTypeBoolean) => {},
            _ => {
                return Err(ParserError::InvalidType);
            },
        }
        let n: usize = prop_slice.buffer.len();
        if n == 1 {
            Ok(prop_slice.buffer[0] != 0)
        } else if n == 4 {
            Ok(bytes::read_u32(prop_slice.buffer, 0) != 0)
        } else if n == 8 {
            Ok(bytes::read_u64(prop_slice.buffer, 0) != 0)
        } else {
            Err(ParserError::LengthMismatch)
        }
    }
}

impl<'schema, 'record> TryParse<'schema, 'record, TdhSocketAddress> for Parser<'schema, 'record> {
    open spec fn decodes(info: PropertyInfo, buffer: Seq<u8>, misalignment: int, r: ParserResult<TdhSocketAddress>) -> bool {
        match r {
            Ok(addr) => {
                &&& value_out_type(info) == Some(TdhOutType::OutTypeSocketAddress)
                &&& buffer.len() >= socket_address::FAMILY_LEN
                &&& socket_address::is_sockaddr(buffer, addr)
            },
            Err(e) => if value_out_type(info) == Some(TdhOutType::OutTypeSocketAddress) {
                buffer.len() < socket_address::FAMILY_LEN && e@ == ParserErrorView::LengthMismatch
            } else {
                e@ == ParserErrorView::InvalidType
            },
        }
    }

    fn try_parse_slice(&self, prop_slice: PropertySlice<'schema, 'record>) -> (r: ParserResult<
        TdhSocketAddress,
    >) {
        match get_out_type(&prop_slice.property.info) {
            Some(TdhOutType::OutTypeSocketAddress) => TdhSocketAddress::from_property_buffer(
                prop_slice.buffer,
            ),
            _ => Err(ParserError::InvalidType),
        }
    }
}

/// The packed `FILETIME` in `buffer`.
pub open spec fn file_time_at(buffer: Seq<u8>) -> FileTime {
    FileTime {
        dw_low_date_time: bytes::u32_at(buffer, 0),
        dw_high_date_time: bytes::u32_at(buffer, 4),
    }
}

impl<'schema, 'record> TryParse<'schema, 'record, FileTime> for Parser<'schema, 'record> {
    open spec fn decodes(info: PropertyInfo, buffer: Seq<u8>, misalignment: int, r: ParserResult<FileTime>) -> bool {
        typed(
            value_in_type(info) == Some(TdhInType::InTypeFileTime),
            buffer.len() == 8,
            ParserErrorView::SliceError,
            file_time_at(buffer),
            r,
        )
    }

    fn try_parse_slice(&self, prop_slice: PropertySlice<'schema, 'record>) -> (r: ParserResult<
        FileTime,
    >) {
        match get_in_type(&prop_slice.property.info) {
            Some(TdhInType::InTypeFileTime) => match to_array::<8>(prop_slice.buffer) {
                Ok(slice) => Ok(FileTime::from_slice(slice)),
                Err(e) => Err(ParserError::from(e)),
            },
            _ => Err(ParserError::InvalidType),
        }
    }
}

impl<'schema, 'record> TryParse<'schema, 'record, SystemTime> for Parser<'schema, 'record> {
    open spec fn decodes(info: PropertyInfo, buffer: Seq<u8>, misalignment: int, r: ParserResult<SystemTime>) -> bool {
        typed(
            value_in_type(info) == Some(TdhInType::InTypeSystemTime),
            buffer.len() == 16,
            ParserErrorView::SliceError,
            times::system_time_at(buffer),
            r,
        )
    }

    fn try_parse_slice(&self, prop_slice: PropertySlice<'schema, 'record>) -> (r: ParserResult<
        SystemTime,
    >) {
        match get_in_type(&prop_slice.property.info) {
            Some(TdhInType::InTypeSystemTime) => match to_array::<16>(prop_slice.buffer) {
                Ok(slice) => Ok(SystemTime::from_slice(slice)),
                Err(e) => Err(ParserError::from(e)),
            },
            _ => Err(ParserError::InvalidType),
        }
    }
}

/// A pointer-sized value
#[derive(Debug, Clone, Copy, PartialEq, Eq, Structural)]
pub struct Pointer(pub usize);

impl Pointer {
    /// The address.
    pub fn value(&self) -> (r: usize)
        ensures
            r == self.0,
    {
        self.0
    }
}

impl Default for Pointer {
    fn default() -> (r: Pointer)
        ensures
            r == Pointer(0),
    {
        Pointer(0)
    }
}

impl<'schema, 'record> TryParse<'schema, 'record, Pointer> for Parser<'schema, 'record> {
    open spec fn decodes(info: PropertyInfo, buffer: Seq<u8>, misalignment: int, r: ParserResult<Pointer>) -> bool {
        if buffer.len() == 4 {
            scalar(info, buffer, 4, Pointer(bytes::u32_at(buffer, 0) as usize), r)
        } else {
            scalar(info, buffer, 8, Pointer(bytes::u64_at(buffer, 0) as usize), r)
        }
    }

    fn try_parse_slice(&self, prop_slice: PropertySlice<'schema, 'record>) -> (r: ParserResult<
        Pointer,
    >) {
        // A pointer wider than the running process uses is truncated
        if prop_slice.buffer.len() == 4 {
            match check_scalar(prop_slice, 4) {
                Ok(_) => Ok(Pointer(bytes::read_u32(prop_slice.buffer, 0) as usize)),
                Err(e) => Err(e),
            }
        } else {
            match check_scalar(prop_slice, 8) {
                Ok(_) => Ok(Pointer(bytes::read_u64(prop_slice.buffer, 0) as usize)),
                Err(e) => Err(e),
            }
        }
    }
}

/// The byte count at the start of counted binary data, `width` bytes wide.
pub open spec fn binary_count(buffer: Seq<u8>, width: nat) -> nat {
    if width == 2 {
        bytes::u16_at(buffer, 0) as nat
    } else {
        bytes::u32_at(buffer, 0) as nat
    }
}

/// The payload of counted binary data.
pub open spec fn counted_binary(buffer: Seq<u8>, width: nat) -> Result<Seq<u8>, ParserErrorView> {
    if buffer.len() < width {
        Err(ParserErrorView::PropertyError("counted binary does not have length"@))
    } else if width + binary_count(buffer, width) > buffer.len() {
        Err(ParserErrorView::PropertyError("invalid counted binary length"@))
    } else {
        Ok(buffer.subrange(width as int, (width + binary_count(buffer, width)) as int))
    }
}

/// The bytes of a property: without the count where there is one.
pub open spec fn binary_value(info: PropertyInfo, buffer: Seq<u8>) -> Result<
    Seq<u8>,
    ParserErrorView,
> {
    if value_in_type(info) == Some(TdhInType::InTypeManifestCountedBinary) {
        counted_binary(buffer, 2)
    } else if value_in_type(info) == Some(TdhInType::InTypeHexDump) {
        counted_binary(buffer, 4)
    } else {
        Ok(buffer)
    }
}

/// Payload of a count-prefixed binary field: a little-endian byte count of
/// `width` bytes followed by that many raw bytes.
pub fn count_prefixed_binary(buffer: &[u8], width: usize) -> (r: ParserResult<Vec<u8>>)
    requires
        width == 2 || width == 4,
    ensures
        match r {
            Ok(v) => counted_binary(buffer@, width as nat) == Ok::<Seq<u8>, ParserErrorView>(v@),
            Err(e) => counted_binary(buffer@, width as nat) == Err::<Seq<u8>, ParserErrorView>(e@),
        },
{
    if buffer.len() < width {
        return parser::property_error("counted binary does not have length");
    }
    let count: usize = if width == 2 {
        bytes::read_u16(buffer, 0) as usize
    } else {
        bytes::read_u32(buffer, 0) as usize
    };
    if count > buffer.len() - width {
        return parser::property_error("invalid counted binary length");
    }
    Ok(bytes::copy_range(buffer, width, width + count))
}

impl<'schema, 'record> TryParse<'schema, 'record, Vec<u8>> for Parser<'schema, 'record> {
    open spec fn decodes(info: PropertyInfo, buffer: Seq<u8>, misalignment: int, r: ParserResult<Vec<u8>>) -> bool {
        match r {
            Ok(v) => binary_value(info, buffer) == Ok::<Seq<u8>, ParserErrorView>(v@),
            Err(e) => binary_value(info, buffer) == Err::<Seq<u8>, ParserErrorView>(e@),
        }
    }

    fn try_parse_slice(&self, prop_slice: PropertySlice<'schema, 'record>) -> (r: ParserResult<
        Vec<u8>,
    >) {
        match get_in_type(&prop_slice.property.info) {
            Some(TdhInType::InTypeManifestCountedBinary) => count_prefixed_binary(
                prop_slice.buffer,
                2,
            ),
            Some(TdhInType::InTypeHexDump) => count_prefixed_binary(prop_slice.buffer, 4),
            _ => {
                let n: usize = prop_slice.buffer.len();
                let v = bytes::copy_range(prop_slice.buffer, 0, n);
                assert(v@ =~= prop_slice.buffer@);
                Ok(v)
            },
        }
    }
}

impl<'schema, 'record> Parser<'schema, 'record> {
    /// Returns a property of the event.
    ///
    /// `T` is the type to decode the property into. If it is not compatible with
    /// the type of the property, [`ParserError::InvalidType`] is returned.
    pub fn try_parse<T>(&mut self, name: &str) -> (r: ParserResult<Lookup<T>>) where
        Parser<'schema, 'record>: TryParse<'schema, 'record, T>,

        ensures
            final(self).layout() == old(self).layout(),
            ({
                let (parsed, outcome) = old(self).layout().lookup(old(self).parsed(), name@);
                &&& final(self).parsed() == parsed
                &&& match outcome {
                    LookupView::Found(i) => {
                        let info = old(self).layout().properties[i].info;
                        match r {
                            Ok(Lookup::Ready(v)) => <Parser<'schema, 'record> as TryParse<
                                'schema,
                                'record,
                                T,
                            >>::decodes(
                                info,
                                parsed[i],
                                old(self).layout().misalignment_of(parsed, i),
                                Ok(v),
                            ),
                            Ok(Lookup::NeedsTdhSize(_)) => false,
                            Err(e) => <Parser<'schema, 'record> as TryParse<
                                'schema,
                                'record,
                                T,
                            >>::decodes(
                                info,
                                parsed[i],
                                old(self).layout().misalignment_of(parsed, i),
                                Err(e),
                            ),
                        }
                    },
                    LookupView::AskTdh(i) => r matches Ok(Lookup::NeedsTdhSize(x)) && x == i,
                    LookupView::Failed(e) => r matches Err(x) && x@ == e,
                }
            }),
    {
        match self.find_property(name) {
            Ok(Lookup::Ready(slice)) => match self.try_parse_slice(slice) {
                Ok(v) => Ok(Lookup::Ready(v)),
                Err(e) => Err(e),
            },
            Ok(Lookup::NeedsTdhSize(i)) => Ok(Lookup::NeedsTdhSize(i)),
            Err(e) => Err(e),
        }
    }

    /// Decodes a structure member out of its bytes.
    ///
    /// Members are not top-level properties, so they cannot be found by name:
    /// the caller slices them out of the enclosing structure.
    /// `misalignment` is how far the bytes lie behind a multiple of the largest
    /// alignment.
    pub fn try_parse_member<T>(
        &self,
        member: &'schema Property,
        buffer: &'record [u8],
        misalignment: usize,
    ) -> (r: ParserResult<T>) where Parser<'schema, 'record>: TryParse<'schema, 'record, T>
        ensures
            <Parser<'schema, 'record> as TryParse<'schema, 'record, T>>::decodes(
                member.info,
                buffer@,
                misalignment as int,
                r,
            ),
    {
        self.try_parse_slice(PropertySlice { property: member, buffer, misalignment })
    }
}

} // verus!
