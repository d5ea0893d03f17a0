//! What is written for a property, given its bytes.
use vstd::prelude::*;

use crate::bytes;
use crate::guid;
use crate::guid::GUID;
use crate::native::tdh_types::{Property, PropertyInfo, TdhInType, TdhOutType};
use crate::native::times;
use crate::native::times::{FileTime, SystemTime};
use crate::parser::{Parser, ParserError, ParserErrorView, ParserResult};
use crate::parser::socket_address;
use crate::parser::socket_address::{IpAddr, TdhSocketAddress};
use crate::parser::values;
use crate::parser::values::{DoubleBits, FloatBits, ParsedString, StringView};
use crate::ser::value;
use crate::ser::value::{SerValue, SerView};
use crate::text;

verus! {

/// How a property is written
#[derive(Debug, Clone, Copy, PartialEq, Eq, Structural)]
pub enum PropHandler {
    Null,
    Bool,
    Int8,
    UInt8,
    Int16,
    UInt16,
    Int32,
    UInt32,
    Int64,
    UInt64,
    HexInt32,
    HexInt64,
    Pointer,
    Float,
    Double,
    String,
    FileTime,
    SystemTime,
    Guid,
    Binary,
    IpAddr,
    SocketAddress,
    Struct,
    StructArray,
    ArrayInt16,
    ArrayUInt16,
    ArrayInt32,
    ArrayUInt32,
    ArrayInt64,
    ArrayUInt64,
    ArrayPointer,
}

/// How a property is written
#[derive(Debug, Clone, Copy, PartialEq, Eq, Structural)]
pub struct PropSer(pub PropHandler);

/// How a value of an in type is written.
pub open spec fn in_type_handler(in_type: TdhInType) -> Option<PropHandler> {
    match in_type {
        TdhInType::InTypeNull => Some(PropHandler::Null),
        TdhInType::InTypeUnicodeString
        | TdhInType::InTypeAnsiString
        | TdhInType::InTypeSid
        | TdhInType::InTypeWbemSid
        | TdhInType::InTypeManifestCountedString
        | TdhInType::InTypeCountedString
        | TdhInType::InTypeManifestCountedAnsiString
        | TdhInType::InTypeCountedAnsiString
        | TdhInType::InTypeReversedCountedString
        | TdhInType::InTypeReversedCountedAnsiString
        | TdhInType::InTypeNonNullTerminatedString
        | TdhInType::InTypeNonNullTerminatedAnsiString
        | TdhInType::InTypeUnicodeChar
        | TdhInType::InTypeAnsiChar => Some(PropHandler::String),
        TdhInType::InTypeInt8 => Some(PropHandler::Int8),
        TdhInType::InTypeUInt8 => Some(PropHandler::UInt8),
        TdhInType::InTypeInt16 => Some(PropHandler::Int16),
        TdhInType::InTypeUInt16 => Some(PropHandler::UInt16),
        TdhInType::InTypeInt32 => Some(PropHandler::Int32),
        TdhInType::InTypeUInt32 => Some(PropHandler::UInt32),
        TdhInType::InTypeInt64 => Some(PropHandler::Int64),
        TdhInType::InTypeUInt64 => Some(PropHandler::UInt64),
        TdhInType::InTypeHexInt32 => Some(PropHandler::HexInt32),
        TdhInType::InTypeHexInt64 => Some(PropHandler::HexInt64),
        TdhInType::InTypeFloat => Some(PropHandler::Float),
        TdhInType::InTypeDouble => Some(PropHandler::Double),
        TdhInType::InTypeBoolean => Some(PropHandler::Bool),
        TdhInType::InTypeBinary
        | TdhInType::InTypeManifestCountedBinary
        | TdhInType::InTypeHexDump => Some(PropHandler::Binary),
        TdhInType::InTypeGuid => Some(PropHandler::Guid),
        TdhInType::InTypePointer | TdhInType::InTypeSizeT => Some(PropHandler::Pointer),
        TdhInType::InTypeFileTime => Some(PropHandler::FileTime),
        TdhInType::InTypeSystemTime => Some(PropHandler::SystemTime),
    }
}

/// How an array of an in type is written.
pub open spec fn array_handler(in_type: TdhInType) -> Option<PropHandler> {
    match in_type {
        TdhInType::InTypeInt16 => Some(PropHandler::ArrayInt16),
        TdhInType::InTypeUInt16 => Some(PropHandler::ArrayUInt16),
        TdhInType::InTypeInt32 => Some(PropHandler::ArrayInt32),
        TdhInType::InTypeUInt32 => Some(PropHandler::ArrayUInt32),
        TdhInType::InTypeInt64 => Some(PropHandler::ArrayInt64),
        TdhInType::InTypeUInt64 => Some(PropHandler::ArrayUInt64),
        TdhInType::InTypePointer => Some(PropHandler::ArrayPointer),
        _ => None,
    }
}

/// How a property is written: the out type decides first, then the in type.
pub open spec fn handler_of(info: PropertyInfo) -> Option<PropHandler> {
    match info {
        PropertyInfo::Value { in_type, out_type, .. } => match out_type {
            TdhOutType::OutTypeIpv4 | TdhOutType::OutTypeIpv6 => Some(PropHandler::IpAddr),
            TdhOutType::OutTypeSocketAddress => Some(PropHandler::SocketAddress),
            TdhOutType::OutTypeUtf8 => Some(PropHandler::String),
            TdhOutType::OutTypeHexInt32 => Some(PropHandler::HexInt32),
            TdhOutType::OutTypeHexInt64 => Some(PropHandler::HexInt64),
            _ => in_type_handler(in_type),
        },
        PropertyInfo::Array { in_type, .. } => array_handler(in_type),
        PropertyInfo::Struct { .. } => Some(PropHandler::Struct),
        PropertyInfo::StructArray { .. } => Some(PropHandler::StructArray),
        PropertyInfo::Unsupported { .. } => None,
    }
}

fn handler_for_in_type(in_type: TdhInType) -> (r: Option<PropHandler>)
    ensures
        r == in_type_handler(in_type),
{
    match in_type {
        TdhInType::InTypeNull => Some(PropHandler::Null),
        TdhInType::InTypeUnicodeString
        | TdhInType::InTypeAnsiString
        | TdhInType::InTypeSid
        | TdhInType::InTypeWbemSid
        | TdhInType::InTypeManifestCountedString
        | TdhInType::InTypeCountedString
        | TdhInType::InTypeManifestCountedAnsiString
        | TdhInType::InTypeCountedAnsiString
        | TdhInType::InTypeReversedCountedString
        | TdhInType::InTypeReversedCountedAnsiString
        | TdhInType::InTypeNonNullTerminatedString
        | TdhInType::InTypeNonNullTerminatedAnsiString
        | TdhInType::InTypeUnicodeChar
        | TdhInType::InTypeAnsiChar => Some(PropHandler::String),
        TdhInType::InTypeInt8 => Some(PropHandler::Int8),
        TdhInType::InTypeUInt8 => Some(PropHandler::UInt8),
        TdhInType::InTypeInt16 => Some(PropHandler::Int16),
        TdhInType::InTypeUInt16 => Some(PropHandler::UInt16),
        TdhInType::InTypeInt32 => Some(PropHandler::Int32),
        TdhInType::InTypeUInt32 => Some(PropHandler::UInt32),
        TdhInType::InTypeInt64 => Some(PropHandler::Int64),
        TdhInType::InTypeUInt64 => Some(PropHandler::UInt64),
        TdhInType::InTypeHexInt32 => Some(PropHandler::HexInt32),
        TdhInType::InTypeHexInt64 => Some(PropHandler::HexInt64),
        TdhInType::InTypeFloat => Some(PropHandler::Float),
        TdhInType::InTypeDouble => Some(PropHandler::Double),
        TdhInType::InTypeBoolean => Some(PropHandler::Bool),
        TdhInType::InTypeBinary
        | TdhInType::InTypeManifestCountedBinary
        | TdhInType::InTypeHexDump => Some(PropHandler::Binary),
        TdhInType::InTypeGuid => Some(PropHandler::Guid),
        TdhInType::InTypePointer | TdhInType::InTypeSizeT => Some(PropHandler::Pointer),
        TdhInType::InTypeFileTime => Some(PropHandler::FileTime),
        TdhInType::InTypeSystemTime => Some(PropHandler::SystemTime),
    }
}

fn handler_for_array(in_type: TdhInType) -> (r: Option<PropHandler>)
    ensures
        r == array_handler(in_type),
{
    match in_type {
        TdhInType::InTypeInt16 => Some(PropHandler::ArrayInt16),
        TdhInType::InTypeUInt16 => Some(PropHandler::ArrayUInt16),
        TdhInType::InTypeInt32 => Some(PropHandler::ArrayInt32),
        TdhInType::InTypeUInt32 => Some(PropHandler::ArrayUInt32),
        TdhInType::InTypeInt64 => Some(PropHandler::ArrayInt64),
        TdhInType::InTypeUInt64 => Some(PropHandler::ArrayUInt64),
        TdhInType::InTypePointer => Some(PropHandler::ArrayPointer),
        _ => None,
    }
}

fn handler_for(info: &PropertyInfo) -> (r: Option<PropHandler>)
    ensures
        r == handler_of(*info),
{
    match info {
        PropertyInfo::Value { in_type, out_type, .. } => match out_type {
            TdhOutType::OutTypeIpv4 | TdhOutType::OutTypeIpv6 => Some(PropHandler::IpAddr),
            TdhOutType::OutTypeSocketAddress => Some(PropHandler::SocketAddress),
            TdhOutType::OutTypeUtf8 => Some(PropHandler::String),
            TdhOutType::OutTypeHexInt32 => Some(PropHandler::HexInt32),
            TdhOutType::OutTypeHexInt64 => Some(PropHandler::HexInt64),
            _ => handler_for_in_type(*in_type),
        },
        PropertyInfo::Array { in_type, .. } => handler_for_array(*in_type),
        PropertyInfo::Struct { .. } => Some(PropHandler::Struct),
        PropertyInfo::StructArray { .. } => Some(PropHandler::StructArray),
        PropertyInfo::Unsupported { .. } => None,
    }
}

/// Types whose values can be written
pub trait PropSerable {
    /// The description of the value.
    spec fn description(&self) -> PropertyInfo;

    /// How the value is written, if that is implemented.
    fn get_parser(&self) -> (r: Option<PropSer>)
        ensures
            r == (match handler_of(self.description()) {
                Some(h) => Some(PropSer(h)),
                None => None,
            }),
    ;
}

impl PropSerable for PropertyInfo {
    open spec fn description(&self) -> PropertyInfo {
        *self
    }

    fn get_parser(&self) -> (r: Option<PropSer>) {
        match handler_for(self) {
            Some(h) => Some(PropSer(h)),
            None => None,
        }
    }
}

impl PropSerable for Property {
    open spec fn description(&self) -> PropertyInfo {
        self.info
    }

    fn get_parser(&self) -> (r: Option<PropSer>) {
        self.info.get_parser()
    }
}

/// What is written for a scalar of `size` bytes.
pub open spec fn scalar_view(info: PropertyInfo, buffer: Seq<u8>, size: nat, v: SerView) -> Result<
    SerView,
    ParserErrorView,
> {
    typed_view(info is Value, buffer.len() == size, ParserErrorView::LengthMismatch, v)
}

/// What is written for an array of elements of `size` bytes.
pub open spec fn array_view(
    info: PropertyInfo,
    buffer: Seq<u8>,
    misalignment: int,
    size: nat,
    v: SerView,
) -> Result<SerView, ParserErrorView> {
    match values::array_error(info, buffer, misalignment, size) {
        Some(e) => Err(e),
        None => Ok(v),
    }
}

/// What is written for a value that must pass a type test and a length test.
pub open spec fn typed_view(
    type_ok: bool,
    length_ok: bool,
    length_error: ParserErrorView,
    v: SerView,
) -> Result<SerView, ParserErrorView> {
    if !type_ok {
        Err(ParserErrorView::InvalidType)
    } else if !length_ok {
        Err(length_error)
    } else {
        Ok(v)
    }
}

/// The text of a number in hexadecimal.
pub open spec fn hex_view(v: nat) -> SerView {
    SerView::Str(text::ascii_chars(seq![0x30u8, 0x78] + text::hex_ascii(v)))
}

/// What is written for a property that is no structure.
pub open spec fn leaf_view(
    handler: PropHandler,
    info: PropertyInfo,
    buffer: Seq<u8>,
    misalignment: int,
    pointer_size: usize,
) -> Result<SerView, ParserErrorView> {
    let in_type = values::value_in_type(info);
    let out_type = values::value_out_type(info);
    match handler {
        PropHandler::Null => Ok(SerView::Null),
        PropHandler::Bool => typed_view(
            in_type == Some(TdhInType::InTypeBoolean),
            buffer.len() == 1 || buffer.len() == 4 || buffer.len() == 8,
            ParserErrorView::LengthMismatch,
            SerView::Bool(values::bool_of(buffer)),
        ),
        PropHandler::Int8 => scalar_view(
            info,
            buffer,
            1,
            SerView::Int8(values::signed8(buffer[0])),
        ),
        PropHandler::UInt8 => scalar_view(info, buffer, 1, SerView::UInt8(buffer[0])),
        PropHandler::Int16 => scalar_view(
            info,
            buffer,
            2,
            SerView::Int16(values::signed16(bytes::u16_at(buffer, 0))),
        ),
        PropHandler::UInt16 => scalar_view(
            info,
            buffer,
            2,
            SerView::UInt16(bytes::u16_at(buffer, 0)),
        ),
        PropHandler::Int32 => scalar_view(
            info,
            buffer,
            4,
            SerView::Int32(values::signed32(bytes::u32_at(buffer, 0))),
        ),
        PropHandler::UInt32 => scalar_view(
            info,
            buffer,
            4,
            SerView::UInt32(bytes::u32_at(buffer, 0)),
        ),
        PropHandler::Int64 => scalar_view(
            info,
            buffer,
            8,
            SerView::Int64(values::signed64(bytes::u64_at(buffer, 0))),
        ),
        PropHandler::UInt64 => scalar_view(
            info,
            buffer,
            8,
            SerView::UInt64(bytes::u64_at(buffer, 0)),
        ),
        PropHandler::HexInt32 => scalar_view(
            info,
            buffer,
            4,
            hex_view(bytes::u32_at(buffer, 0) as nat),
        ),
        PropHandler::HexInt64 => scalar_view(
            info,
            buffer,
            8,
            hex_view(bytes::u64_at(buffer, 0) as nat),
        ),
        PropHandler::Pointer => if pointer_size == 4 {
            scalar_view(info, buffer, 4, SerView::UInt32(bytes::u32_at(buffer, 0)))
        } else {
            scalar_view(info, buffer, 8, SerView::UInt64(bytes::u64_at(buffer, 0)))
        },
        PropHandler::Float => scalar_view(info, buffer, 4, SerView::Float(bytes::u32_at(buffer, 0))),
        PropHandler::Double => scalar_view(
            info,
            buffer,
            8,
            SerView::Double(bytes::u64_at(buffer, 0)),
        ),
        PropHandler::String => match in_type {
            Some(t) => match values::string_value(t, buffer) {
                Ok(StringView::Text(s)) => Ok(SerView::Str(s)),
                Ok(StringView::Sid(s)) => Ok(SerView::Sid(s)),
                Err(e) => Err(e),
            },
            None => Err(ParserErrorView::InvalidType),
        },
        PropHandler::FileTime => typed_view(
            in_type == Some(TdhInType::InTypeFileTime),
            buffer.len() == 8,
            ParserErrorView::SliceError,
            SerView::FileTime(values::file_time_at(buffer)),
        ),
        PropHandler::SystemTime => typed_view(
            in_type == Some(TdhInType::InTypeSystemTime),
            buffer.len() == 16,
            ParserErrorView::SliceError,
            SerView::SystemTime(times::system_time_at(buffer)),
        ),
        PropHandler::Guid => typed_view(
            in_type == Some(TdhInType::InTypeGuid),
            buffer.len() == 16,
            ParserErrorView::LengthMismatch,
            SerView::Guid(guid::guid_at(buffer, 0)),
        ),
        PropHandler::Binary => match values::binary_value(info, buffer) {
            Ok(b) => Ok(SerView::Bytes(b)),
            Err(e) => Err(e),
        },
        PropHandler::IpAddr => typed_view(
            out_type == Some(TdhOutType::OutTypeIpv4) || out_type == Some(TdhOutType::OutTypeIpv6),
            buffer.len() == 16 || buffer.len() == 4,
            ParserErrorView::LengthMismatch,
            SerView::IpAddr(values::ip_of(buffer)),
        ),
        PropHandler::SocketAddress => typed_view(
            out_type == Some(TdhOutType::OutTypeSocketAddress),
            buffer.len() >= socket_address::FAMILY_LEN,
            ParserErrorView::LengthMismatch,
            SerView::SocketAddress(value::socket_of(buffer)),
        ),
        PropHandler::ArrayInt16 => array_view(
            info,
            buffer,
            misalignment,
            2,
            SerView::Int16s(values::elements_i16(buffer)),
        ),
        PropHandler::ArrayUInt16 => array_view(
            info,
            buffer,
            misalignment,
            2,
            SerView::UInt16s(values::elements_u16(buffer)),
        ),
        PropHandler::ArrayInt32 => array_view(
            info,
            buffer,
            misalignment,
            4,
            SerView::Int32s(values::elements_i32(buffer)),
        ),
        PropHandler::ArrayUInt32 => array_view(
            info,
            buffer,
            misalignment,
            4,
            SerView::UInt32s(values::elements_u32(buffer)),
        ),
        PropHandler::ArrayInt64 => array_view(
            info,
            buffer,
            misalignment,
            8,
            SerView::Int64s(values::elements_i64(buffer)),
        ),
        PropHandler::ArrayUInt64 => array_view(
            info,
            buffer,
            misalignment,
            8,
            SerView::UInt64s(values::elements_u64(buffer)),
        ),
        PropHandler::ArrayPointer => if pointer_size == 4 {
            array_view(
                info,
                buffer,
                misalignment,
                4,
                SerView::UInt32s(values::elements_u32(buffer)),
            )
        } else {
            array_view(
                info,
                buffer,
                misalignment,
                8,
                SerView::UInt64s(values::elements_u64(buffer)),
            )
        },
        PropHandler::Struct | PropHandler::StructArray => Err(ParserErrorView::InvalidType),
    }
}

/// Whether `r` is the value `expected`.
pub open spec fn is_value(
    r: ParserResult<SerValue>,
    expected: Result<SerView, ParserErrorView>,
) -> bool {
    match r {
        Ok(v) => expected == Ok::<SerView, ParserErrorView>(v.view()),
        Err(e) => expected == Err::<SerView, ParserErrorView>(e@),
    }
}

impl PropHandler {
    /// What is written for a property that is no structure.
    pub fn ser_from_bytes<'schema, 'record>(
        self,
        parser: &Parser<'schema, 'record>,
        prop: &'schema Property,
        buffer: &'record [u8],
        misalignment: usize,
    ) -> (r: ParserResult<SerValue>)
        requires
            !(self is Struct) && !(self is StructArray),
        ensures
            is_value(
                r,
                leaf_view(
                    self,
                    prop.info,
                    buffer@,
                    misalignment as int,
                    parser.layout().pointer_size,
                ),
            ),
    {
        match self {
            PropHandler::Null => Ok(SerValue::Null),
            PropHandler::Bool => match parser.try_parse_member::<bool>(prop, buffer, misalignment) {
                Ok(v) => Ok(SerValue::Bool(v)),
                Err(e) => Err(e),
            },
            PropHandler::Int8 => match parser.try_parse_member::<i8>(prop, buffer, misalignment) {
                Ok(v) => Ok(SerValue::Int8(v)),
                Err(e) => Err(e),
            },
            PropHandler::UInt8 => match parser.try_parse_member::<u8>(prop, buffer, misalignment) {
                Ok(v) => Ok(SerValue::UInt8(v)),
                Err(e) => Err(e),
            },
            PropHandler::Int16 => match parser.try_parse_member::<i16>(prop, buffer, misalignment) {
                Ok(v) => Ok(SerValue::Int16(v)),
                Err(e) => Err(e),
            },
            PropHandler::UInt16 => match parser.try_parse_member::<u16>(prop, buffer, misalignment) {
                Ok(v) => Ok(SerValue::UInt16(v)),
                Err(e) => Err(e),
            },
            PropHandler::Int32 => match parser.try_parse_member::<i32>(prop, buffer, misalignment) {
                Ok(v) => Ok(SerValue::Int32(v)),
                Err(e) => Err(e),
            },
            PropHandler::UInt32 => match parser.try_parse_member::<u32>(prop, buffer, misalignment) {
                Ok(v) => Ok(SerValue::UInt32(v)),
                Err(e) => Err(e),
            },
            PropHandler::Int64 => match parser.try_parse_member::<i64>(prop, buffer, misalignment) {
                Ok(v) => Ok(SerValue::Int64(v)),
                Err(e) => Err(e),
            },
            PropHandler::UInt64 => match parser.try_parse_member::<u64>(prop, buffer, misalignment) {
                Ok(v) => Ok(SerValue::UInt64(v)),
                Err(e) => Err(e),
            },
            PropHandler::HexInt32 => match parser.try_parse_member::<u32>(prop, buffer, misalignment) {
                Ok(v) => Ok(SerValue::Str(text::hex_text(v as u64))),
                Err(e) => Err(e),
            },
            PropHandler::HexInt64 => match parser.try_parse_member::<u64>(prop, buffer, misalignment) {
                Ok(v) => Ok(SerValue::Str(text::hex_text(v))),
                Err(e) => Err(e),
            },
            PropHandler::Pointer => if parser.pointer_size() == 4 {
                match parser.try_parse_member::<u32>(prop, buffer, misalignment) {
                    Ok(v) => Ok(SerValue::UInt32(v)),
                    Err(e) => Err(e),
                }
            } else {
                match parser.try_parse_member::<u64>(prop, buffer, misalignment) {
                    Ok(v) => Ok(SerValue::UInt64(v)),
                    Err(e) => Err(e),
                }
            },
            PropHandler::Float => match parser.try_parse_member::<FloatBits>(prop, buffer, misalignment) {
                Ok(v) => Ok(SerValue::Float(v.0)),
                Err(e) => Err(e),
            },
            PropHandler::Double => match parser.try_parse_member::<DoubleBits>(prop, buffer, misalignment) {
                Ok(v) => Ok(SerValue::Double(v.0)),
                Err(e) => Err(e),
            },
            PropHandler::String => match parser.try_parse_member::<ParsedString>(prop, buffer, misalignment) {
                Ok(ParsedString::Text(s)) => Ok(SerValue::Str(s)),
                Ok(ParsedString::Sid(sid)) => {
                    let data = sid.as_bytes();
                    let copy = bytes::copy_range(data, 0, data.len());
                    assert(copy@ =~= data@);
                    Ok(SerValue::Sid(copy))
                },
                Err(e) => Err(e),
            },
            PropHandler::FileTime => match parser.try_parse_member::<FileTime>(prop, buffer, misalignment) {
                Ok(v) => Ok(SerValue::FileTime(v)),
                Err(e) => Err(e),
            },
            PropHandler::SystemTime => match parser.try_parse_member::<SystemTime>(prop, buffer, misalignment) {
                Ok(v) => Ok(SerValue::SystemTime(v)),
                Err(e) => Err(e),
            },
            PropHandler::Guid => match parser.try_parse_member::<GUID>(prop, buffer, misalignment) {
                Ok(v) => Ok(SerValue::Guid(v)),
                Err(e) => Err(e),
            },
            PropHandler::Binary => match parser.try_parse_member::<Vec<u8>>(prop, buffer, misalignment) {
                Ok(v) => Ok(SerValue::Bytes(v)),
                Err(e) => Err(e),
            },
            PropHandler::IpAddr => match parser.try_parse_member::<IpAddr>(prop, buffer, misalignment) {
                Ok(v) => Ok(SerValue::IpAddr(v)),
                Err(e) => Err(e),
            },
            PropHandler::SocketAddress => match parser.try_parse_member::<TdhSocketAddress>(
                prop,
                buffer,
                misalignment,
            ) {
                Ok(v) => {
                    proof {
                        value::decoded_socket(buffer@, v);
                    }
                    Ok(SerValue::SocketAddress(v))
                },
                Err(e) => Err(e),
            },
            PropHandler::ArrayInt16 => match parser.try_parse_member::<Vec<i16>>(prop, buffer, misalignment) {
                Ok(v) => Ok(SerValue::Int16s(v)),
                Err(e) => Err(e),
            },
            PropHandler::ArrayUInt16 => match parser.try_parse_member::<Vec<u16>>(prop, buffer, misalignment) {
                Ok(v) => Ok(SerValue::UInt16s(v)),
                Err(e) => Err(e),
            },
            PropHandler::ArrayInt32 => match parser.try_parse_member::<Vec<i32>>(prop, buffer, misalignment) {
                Ok(v) => Ok(SerValue::Int32s(v)),
                Err(e) => Err(e),
            },
            PropHandler::ArrayUInt32 => match parser.try_parse_member::<Vec<u32>>(prop, buffer, misalignment) {
                Ok(v) => Ok(SerValue::UInt32s(v)),
                Err(e) => Err(e),
            },
            PropHandler::ArrayInt64 => match parser.try_parse_member::<Vec<i64>>(prop, buffer, misalignment) {
                Ok(v) => Ok(SerValue::Int64s(v)),
                Err(e) => Err(e),
            },
            PropHandler::ArrayUInt64 => match parser.try_parse_member::<Vec<u64>>(prop, buffer, misalignment) {
                Ok(v) => Ok(SerValue::UInt64s(v)),
                Err(e) => Err(e),
            },
            PropHandler::ArrayPointer => if parser.pointer_size() == 4 {
                match parser.try_parse_member::<Vec<u32>>(prop, buffer, misalignment) {
                    Ok(v) => Ok(SerValue::UInt32s(v)),
                    Err(e) => Err(e),
                }
            } else {
                match parser.try_parse_member::<Vec<u64>>(prop, buffer, misalignment) {
                    Ok(v) => Ok(SerValue::UInt64s(v)),
                    Err(e) => Err(e),
                }
            },
            PropHandler::Struct | PropHandler::StructArray => Err(ParserError::InvalidType),
        }
    }
}

} // verus!
