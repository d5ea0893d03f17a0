//! TDH property descriptions.
//!
//! Typed view of the `EVENT_PROPERTY_INFO` entries of a schema: the in and out
//! type of each property, where its length and its element count come from, and
//! the sizes that follow from the description alone.
use vstd::prelude::*;

use crate::bytes;

verus! {

/// A `TDH_IN_TYPE`: how the bytes of a property are laid out
#[derive(Debug, Clone, Copy, PartialEq, Eq, Structural)]
pub enum TdhInType {
    InTypeNull,
    InTypeUnicodeString,
    InTypeAnsiString,
    InTypeInt8,
    InTypeUInt8,
    InTypeInt16,
    InTypeUInt16,
    InTypeInt32,
    InTypeUInt32,
    InTypeInt64,
    InTypeUInt64,
    InTypeFloat,
    InTypeDouble,
    /// Field size is 4 bytes
    InTypeBoolean,
    /// Depends on the out type
    InTypeBinary,
    InTypeGuid,
    /// Sized from the event header flags
    InTypePointer,
    InTypeFileTime,
    InTypeSystemTime,
    /// Sized by the first few bytes of the field
    InTypeSid,
    InTypeHexInt32,
    InTypeHexInt64,
    /// Little-endian 16-bit byte count followed by UTF-16 data
    InTypeManifestCountedString,
    /// Little-endian 16-bit byte count followed by 8-bit characters
    InTypeManifestCountedAnsiString,
    /// Little-endian 16-bit byte count followed by raw bytes
    InTypeManifestCountedBinary,
    /// WBEM twin of [`TdhInType::InTypeManifestCountedString`]
    InTypeCountedString,
    /// WBEM twin of [`TdhInType::InTypeManifestCountedAnsiString`]
    InTypeCountedAnsiString,
    /// Big-endian 16-bit byte count followed by UTF-16 data
    InTypeReversedCountedString,
    /// Big-endian 16-bit byte count followed by 8-bit characters
    InTypeReversedCountedAnsiString,
    /// UTF-16 data spanning the remaining bytes of the event
    InTypeNonNullTerminatedString,
    /// 8-bit characters spanning the remaining bytes of the event
    InTypeNonNullTerminatedAnsiString,
    /// A single WCHAR
    InTypeUnicodeChar,
    /// A single CHAR
    InTypeAnsiChar,
    /// Sized like [`TdhInType::InTypePointer`]
    InTypeSizeT,
    /// Little-endian 32-bit byte count followed by that many raw bytes
    InTypeHexDump,
    /// Laid out like [`TdhInType::InTypeSid`]
    InTypeWbemSid,
}

impl TdhInType {
    /// The value TDH uses for this type.
    pub open spec fn code(self) -> u16 {
        match self {
            TdhInType::InTypeNull => 0,
            TdhInType::InTypeUnicodeString => 1,
            TdhInType::InTypeAnsiString => 2,
            TdhInType::InTypeInt8 => 3,
            TdhInType::InTypeUInt8 => 4,
            TdhInType::InTypeInt16 => 5,
            TdhInType::InTypeUInt16 => 6,
            TdhInType::InTypeInt32 => 7,
            TdhInType::InTypeUInt32 => 8,
            TdhInType::InTypeInt64 => 9,
            TdhInType::InTypeUInt64 => 10,
            TdhInType::InTypeFloat => 11,
            TdhInType::InTypeDouble => 12,
            TdhInType::InTypeBoolean => 13,
            TdhInType::InTypeBinary => 14,
            TdhInType::InTypeGuid => 15,
            TdhInType::InTypePointer => 16,
            TdhInType::InTypeFileTime => 17,
            TdhInType::InTypeSystemTime => 18,
            TdhInType::InTypeSid => 19,
            TdhInType::InTypeHexInt32 => 20,
            TdhInType::InTypeHexInt64 => 21,
            TdhInType::InTypeManifestCountedString => 22,
            TdhInType::InTypeManifestCountedAnsiString => 23,
            TdhInType::InTypeManifestCountedBinary => 25,
            TdhInType::InTypeCountedString => 300,
            TdhInType::InTypeCountedAnsiString => 301,
            TdhInType::InTypeReversedCountedString => 302,
            TdhInType::InTypeReversedCountedAnsiString => 303,
            TdhInType::InTypeNonNullTerminatedString => 304,
            TdhInType::InTypeNonNullTerminatedAnsiString => 305,
            TdhInType::InTypeUnicodeChar => 306,
            TdhInType::InTypeAnsiChar => 307,
            TdhInType::InTypeSizeT => 308,
            TdhInType::InTypeHexDump => 309,
            TdhInType::InTypeWbemSid => 310,
        }
    }

    /// The value TDH uses for this type.
    pub fn as_u16(self) -> (r: u16)
        ensures
            r == self.code(),
    {
        match self {
            TdhInType::InTypeNull => 0,
            TdhInType::InTypeUnicodeString => 1,
            TdhInType::InTypeAnsiString => 2,
            TdhInType::InTypeInt8 => 3,
            TdhInType::InTypeUInt8 => 4,
            TdhInType::InTypeInt16 => 5,
            TdhInType::InTypeUInt16 => 6,
            TdhInType::InTypeInt32 => 7,
            TdhInType::InTypeUInt32 => 8,
            TdhInType::InTypeInt64 => 9,
            TdhInType::InTypeUInt64 => 10,
            TdhInType::InTypeFloat => 11,
            TdhInType::InTypeDouble => 12,
            TdhInType::InTypeBoolean => 13,
            TdhInType::InTypeBinary => 14,
            TdhInType::InTypeGuid => 15,
            TdhInType::InTypePointer => 16,
            TdhInType::InTypeFileTime => 17,
            TdhInType::InTypeSystemTime => 18,
            TdhInType::InTypeSid => 19,
            TdhInType::InTypeHexInt32 => 20,
            TdhInType::InTypeHexInt64 => 21,
            TdhInType::InTypeManifestCountedString => 22,
            TdhInType::InTypeManifestCountedAnsiString => 23,
            TdhInType::InTypeManifestCountedBinary => 25,
            TdhInType::InTypeCountedString => 300,
            TdhInType::InTypeCountedAnsiString => 301,
            TdhInType::InTypeReversedCountedString => 302,
            TdhInType::InTypeReversedCountedAnsiString => 303,
            TdhInType::InTypeNonNullTerminatedString => 304,
            TdhInType::InTypeNonNullTerminatedAnsiString => 305,
            TdhInType::InTypeUnicodeChar => 306,
            TdhInType::InTypeAnsiChar => 307,
            TdhInType::InTypeSizeT => 308,
            TdhInType::InTypeHexDump => 309,
            TdhInType::InTypeWbemSid => 310,
        }
    }

    /// The type TDH denotes by `value`, if this crate knows it.
    pub fn from_u16(value: u16) -> (r: Option<TdhInType>)
        ensures
            match r {
                Some(t) => t.code() == value,
                None => forall|t: TdhInType| #[trigger] t.code() != value,
            },
    {
        match value {
            0 => Some(TdhInType::InTypeNull),
            1 => Some(TdhInType::InTypeUnicodeString),
            2 => Some(TdhInType::InTypeAnsiString),
            3 => Some(TdhInType::InTypeInt8),
            4 => Some(TdhInType::InTypeUInt8),
            5 => Some(TdhInType::InTypeInt16),
            6 => Some(TdhInType::InTypeUInt16),
            7 => Some(TdhInType::InTypeInt32),
            8 => Some(TdhInType::InTypeUInt32),
            9 => Some(TdhInType::InTypeInt64),
            10 => Some(TdhInType::InTypeUInt64),
            11 => Some(TdhInType::InTypeFloat),
            12 => Some(TdhInType::InTypeDouble),
            13 => Some(TdhInType::InTypeBoolean),
            14 => Some(TdhInType::InTypeBinary),
            15 => Some(TdhInType::InTypeGuid),
            16 => Some(TdhInType::InTypePointer),
            17 => Some(TdhInType::InTypeFileTime),
            18 => Some(TdhInType::InTypeSystemTime),
            19 => Some(TdhInType::InTypeSid),
            20 => Some(TdhInType::InTypeHexInt32),
            21 => Some(TdhInType::InTypeHexInt64),
            22 => Some(TdhInType::InTypeManifestCountedString),
            23 => Some(TdhInType::InTypeManifestCountedAnsiString),
            25 => Some(TdhInType::InTypeManifestCountedBinary),
            300 => Some(TdhInType::InTypeCountedString),
            301 => Some(TdhInType::InTypeCountedAnsiString),
            302 => Some(TdhInType::InTypeReversedCountedString),
            303 => Some(TdhInType::InTypeReversedCountedAnsiString),
            304 => Some(TdhInType::InTypeNonNullTerminatedString),
            305 => Some(TdhInType::InTypeNonNullTerminatedAnsiString),
            306 => Some(TdhInType::InTypeUnicodeChar),
            307 => Some(TdhInType::InTypeAnsiChar),
            308 => Some(TdhInType::InTypeSizeT),
            309 => Some(TdhInType::InTypeHexDump),
            310 => Some(TdhInType::InTypeWbemSid),
            _ => None,
        }
    }
}

impl Default for TdhInType {
    fn default() -> (r: TdhInType)
        ensures
            r == TdhInType::InTypeNull,
    {
        TdhInType::InTypeNull
    }
}

/// No two variants share a TDH value, so decoding what was encoded gives the type back.
pub proof fn in_type_codes_are_distinct(a: TdhInType, b: TdhInType)
    ensures
        a.code() == b.code() ==> a == b,
{
}

/// A `TDH_OUT_TYPE`: how the value of a property is meant to be shown
#[derive(Debug, Clone, Copy, PartialEq, Eq, Structural)]
pub enum TdhOutType {
    OutTypeNull,
    OutTypeString,
    OutTypeDateTime,
    OutTypeInt8,
    OutTypeUInt8,
    OutTypeInt16,
    OutTypeUInt16,
    OutTypeInt32,
    OutTypeUInt32,
    OutTypeInt64,
    OutTypeUInt64,
    OutTypeFloat,
    OutTypeDouble,
    OutTypeBoolean,
    OutTypeGuid,
    OutTypeHexBinary,
    OutTypeHexInt8,
    OutTypeHexInt16,
    OutTypeHexInt32,
    OutTypeHexInt64,
    OutTypePid,
    OutTypeTid,
    OutTypePort,
    OutTypeIpv4,
    OutTypeIpv6,
    /// The field is a `SOCKADDR` structure
    OutTypeSocketAddress,
    OutTypeWin32Error,
    OutTypeNtStatus,
    OutTypeHResult,
    OutTypeJson,
    OutTypeUtf8,
    OutTypePkcs7,
    OutTypeCodePointer,
    OutTypeDatetimeUtc,
}

impl TdhOutType {
    /// The value TDH uses for this type.
    pub open spec fn code(self) -> u16 {
        match self {
            TdhOutType::OutTypeNull => 0,
            TdhOutType::OutTypeString => 1,
            TdhOutType::OutTypeDateTime => 2,
            TdhOutType::OutTypeInt8 => 3,
            TdhOutType::OutTypeUInt8 => 4,
            TdhOutType::OutTypeInt16 => 5,
            TdhOutType::OutTypeUInt16 => 6,
            TdhOutType::OutTypeInt32 => 7,
            TdhOutType::OutTypeUInt32 => 8,
            TdhOutType::OutTypeInt64 => 9,
            TdhOutType::OutTypeUInt64 => 10,
            TdhOutType::OutTypeFloat => 11,
            TdhOutType::OutTypeDouble => 12,
            TdhOutType::OutTypeBoolean => 13,
            TdhOutType::OutTypeGuid => 14,
            TdhOutType::OutTypeHexBinary => 15,
            TdhOutType::OutTypeHexInt8 => 16,
            TdhOutType::OutTypeHexInt16 => 17,
            TdhOutType::OutTypeHexInt32 => 18,
            TdhOutType::OutTypeHexInt64 => 19,
            TdhOutType::OutTypePid => 20,
            TdhOutType::OutTypeTid => 21,
            TdhOutType::OutTypePort => 22,
            TdhOutType::OutTypeIpv4 => 23,
            TdhOutType::OutTypeIpv6 => 24,
            TdhOutType::OutTypeSocketAddress => 25,
            TdhOutType::OutTypeWin32Error => 30,
            TdhOutType::OutTypeNtStatus => 31,
            TdhOutType::OutTypeHResult => 32,
            TdhOutType::OutTypeJson => 34,
            TdhOutType::OutTypeUtf8 => 35,
            TdhOutType::OutTypePkcs7 => 36,
            TdhOutType::OutTypeCodePointer => 37,
            TdhOutType::OutTypeDatetimeUtc => 38,
        }
    }

    /// The value TDH uses for this type.
    pub fn as_u16(self) -> (r: u16)
        ensures
            r == self.code(),
    {
        match self {
            TdhOutType::OutTypeNull => 0,
            TdhOutType::OutTypeString => 1,
            TdhOutType::OutTypeDateTime => 2,
            TdhOutType::OutTypeInt8 => 3,
            TdhOutType::OutTypeUInt8 => 4,
            TdhOutType::OutTypeInt16 => 5,
            TdhOutType::OutTypeUInt16 => 6,
            TdhOutType::OutTypeInt32 => 7,
            TdhOutType::OutTypeUInt32 => 8,
            TdhOutType::OutTypeInt64 => 9,
            TdhOutType::OutTypeUInt64 => 10,
            TdhOutType::OutTypeFloat => 11,
            TdhOutType::OutTypeDouble => 12,
            TdhOutType::OutTypeBoolean => 13,
            TdhOutType::OutTypeGuid => 14,
            TdhOutType::OutTypeHexBinary => 15,
            TdhOutType::OutTypeHexInt8 => 16,
            TdhOutType::OutTypeHexInt16 => 17,
            TdhOutType::OutTypeHexInt32 => 18,
            TdhOutType::OutTypeHexInt64 => 19,
            TdhOutType::OutTypePid => 20,
            TdhOutType::OutTypeTid => 21,
            TdhOutType::OutTypePort => 22,
            TdhOutType::OutTypeIpv4 => 23,
            TdhOutType::OutTypeIpv6 => 24,
            TdhOutType::OutTypeSocketAddress => 25,
            TdhOutType::OutTypeWin32Error => 30,
            TdhOutType::OutTypeNtStatus => 31,
            TdhOutType::OutTypeHResult => 32,
            TdhOutType::OutTypeJson => 34,
            TdhOutType::OutTypeUtf8 => 35,
            TdhOutType::OutTypePkcs7 => 36,
            TdhOutType::OutTypeCodePointer => 37,
            TdhOutType::OutTypeDatetimeUtc => 38,
        }
    }

    /// The type TDH denotes by `value`, if this crate knows it.
    pub fn from_u16(value: u16) -> (r: Option<TdhOutType>)
        ensures
            match r {
                Some(t) => t.code() == value,
                None => forall|t: TdhOutType| #[trigger] t.code() != value,
            },
    {
        match value {
            0 => Some(TdhOutType::OutTypeNull),
            1 => Some(TdhOutType::OutTypeString),
            2 => Some(TdhOutType::OutTypeDateTime),
            3 => Some(TdhOutType::OutTypeInt8),
            4 => Some(TdhOutType::OutTypeUInt8),
            5 => Some(TdhOutType::OutTypeInt16),
            6 => Some(TdhOutType::OutTypeUInt16),
            7 => Some(TdhOutType::OutTypeInt32),
            8 => Some(TdhOutType::OutTypeUInt32),
            9 => Some(TdhOutType::OutTypeInt64),
            10 => Some(TdhOutType::OutTypeUInt64),
            11 => Some(TdhOutType::OutTypeFloat),
            12 => Some(TdhOutType::OutTypeDouble),
            13 => Some(TdhOutType::OutTypeBoolean),
            14 => Some(TdhOutType::OutTypeGuid),
            15 => Some(TdhOutType::OutTypeHexBinary),
            16 => Some(TdhOutType::OutTypeHexInt8),
            17 => Some(TdhOutType::OutTypeHexInt16),
            18 => Some(TdhOutType::OutTypeHexInt32),
            19 => Some(TdhOutType::OutTypeHexInt64),
            20 => Some(TdhOutType::OutTypePid),
            21 => Some(TdhOutType::OutTypeTid),
            22 => Some(TdhOutType::OutTypePort),
            23 => Some(TdhOutType::OutTypeIpv4),
            24 => Some(TdhOutType::OutTypeIpv6),
            25 => Some(TdhOutType::OutTypeSocketAddress),
            30 => Some(TdhOutType::OutTypeWin32Error),
            31 => Some(TdhOutType::OutTypeNtStatus),
            32 => Some(TdhOutType::OutTypeHResult),
            34 => Some(TdhOutType::OutTypeJson),
            35 => Some(TdhOutType::OutTypeUtf8),
            36 => Some(TdhOutType::OutTypePkcs7),
            37 => Some(TdhOutType::OutTypeCodePointer),
            38 => Some(TdhOutType::OutTypeDatetimeUtc),
            _ => None,
        }
    }
}

impl Default for TdhOutType {
    fn default() -> (r: TdhOutType)
        ensures
            r == TdhOutType::OutTypeNull,
    {
        TdhOutType::OutTypeNull
    }
}

/// No two variants share a TDH value, so decoding what was encoded gives the type back.
pub proof fn out_type_codes_are_distinct(a: TdhOutType, b: TdhOutType)
    ensures
        a.code() == b.code() ==> a == b,
{
}


/// `n` as a size, unless it does not fit one.
pub open spec fn fit(n: int) -> Option<usize> {
    if n <= usize::MAX {
        Some(n as usize)
    } else {
        None
    }
}

/// Whether values of this in type are sized like a pointer.
pub open spec fn is_pointer_sized(in_type: TdhInType) -> bool {
    in_type is InTypePointer || in_type is InTypeSizeT
}

impl TdhInType {
    /// Bytes per unit of a schema-declared length: WCHARs for a wide string,
    /// bytes for everything else.
    pub open spec fn length_unit(self) -> int {
        if self is InTypeUnicodeString {
            2
        } else {
            1
        }
    }

    /// Byte size of the in types whose size follows from the in type alone.
    pub open spec fn spec_fixed_size(self) -> Option<usize> {
        match self {
            TdhInType::InTypeInt8 | TdhInType::InTypeUInt8 | TdhInType::InTypeAnsiChar => Some(1),
            TdhInType::InTypeInt16 | TdhInType::InTypeUInt16 | TdhInType::InTypeUnicodeChar => Some(
                2,
            ),
            TdhInType::InTypeInt32
            | TdhInType::InTypeUInt32
            | TdhInType::InTypeFloat
            | TdhInType::InTypeBoolean
            | TdhInType::InTypeHexInt32 => Some(4),
            TdhInType::InTypeInt64
            | TdhInType::InTypeUInt64
            | TdhInType::InTypeDouble
            | TdhInType::InTypeFileTime
            | TdhInType::InTypeHexInt64 => Some(8),
            TdhInType::InTypeGuid | TdhInType::InTypeSystemTime => Some(16),
            _ => None,
        }
    }

    /// Whether the field bytes themselves tell the size of the field, in which
    /// case any schema-declared length is ignored.
    pub open spec fn spec_is_content_sized(self) -> bool {
        match self {
            TdhInType::InTypeManifestCountedString
            | TdhInType::InTypeManifestCountedAnsiString
            | TdhInType::InTypeManifestCountedBinary
            | TdhInType::InTypeCountedString
            | TdhInType::InTypeCountedAnsiString
            | TdhInType::InTypeReversedCountedString
            | TdhInType::InTypeReversedCountedAnsiString
            | TdhInType::InTypeSid
            | TdhInType::InTypeWbemSid
            | TdhInType::InTypeHexDump => true,
            _ => false,
        }
    }

    /// Byte size of one element whose schema declares the literal `length`.
    ///
    /// The unit of that length is documented per in type: a wide string counts
    /// WCHARs, every other type counts bytes.
    pub fn literal_schema_length_bytes(self, length: u16) -> (r: usize)
        ensures
            r == length * self.length_unit(),
    {
        match self {
            TdhInType::InTypeUnicodeString => length as usize * 2,
            _ => length as usize,
        }
    }

    /// Byte size of one element whose length was read from another property,
    /// or `None` when the unit conversion overflows.
    pub fn schema_length_bytes(self, length: usize) -> (r: Option<usize>)
        ensures
            r == fit(length * self.length_unit()),
    {
        match self {
            TdhInType::InTypeUnicodeString => length.checked_mul(2),
            _ => Some(length),
        }
    }

    /// Byte size of the in types whose size follows from the in type alone.
    ///
    /// For these types the length declared by the schema can be ignored.
    pub fn fixed_size(self) -> (r: Option<usize>)
        ensures
            r == self.spec_fixed_size(),
    {
        match self {
            TdhInType::InTypeInt8 | TdhInType::InTypeUInt8 | TdhInType::InTypeAnsiChar => Some(1),
            TdhInType::InTypeInt16 | TdhInType::InTypeUInt16 | TdhInType::InTypeUnicodeChar => Some(
                2,
            ),
            TdhInType::InTypeInt32
            | TdhInType::InTypeUInt32
            | TdhInType::InTypeFloat
            | TdhInType::InTypeBoolean
            | TdhInType::InTypeHexInt32 => Some(4),
            TdhInType::InTypeInt64
            | TdhInType::InTypeUInt64
            | TdhInType::InTypeDouble
            | TdhInType::InTypeFileTime
            | TdhInType::InTypeHexInt64 => Some(8),
            TdhInType::InTypeGuid | TdhInType::InTypeSystemTime => Some(16),
            _ => None,
        }
    }

    /// Whether the field bytes themselves tell the size of the field.
    pub fn is_content_sized(self) -> (r: bool)
        ensures
            r == self.spec_is_content_sized(),
    {
        match self {
            TdhInType::InTypeManifestCountedString
            | TdhInType::InTypeManifestCountedAnsiString
            | TdhInType::InTypeManifestCountedBinary
            | TdhInType::InTypeCountedString
            | TdhInType::InTypeCountedAnsiString
            | TdhInType::InTypeReversedCountedString
            | TdhInType::InTypeReversedCountedAnsiString
            | TdhInType::InTypeSid
            | TdhInType::InTypeWbemSid
            | TdhInType::InTypeHexDump => true,
            _ => false,
        }
    }

    /// Whether values of this in type are sized like a pointer.
    pub fn pointer_sized(self) -> (r: bool)
        ensures
            r == is_pointer_sized(self),
    {
        match self {
            TdhInType::InTypePointer | TdhInType::InTypeSizeT => true,
            _ => false,
        }
    }
}

/// No in type is sized both by the type alone and by the field bytes.
pub proof fn content_sized_types_have_no_fixed_size(t: TdhInType)
    ensures
        t.spec_is_content_sized() ==> t.spec_fixed_size() is None,
{
}

/// The unsigned integer held by a carrier property (the target of a count or
/// length reference): one, two, four or eight bytes, if the value is a size.
pub open spec fn index_value(bytes: Seq<u8>) -> Option<usize> {
    if bytes.len() == 1 {
        Some(bytes[0] as usize)
    } else if bytes.len() == 2 {
        Some(bytes::u16_at(bytes, 0) as usize)
    } else if bytes.len() == 4 {
        Some(bytes::u32_at(bytes, 0) as usize)
    } else if bytes.len() == 8 {
        fit(bytes::u64_at(bytes, 0) as int)
    } else {
        None
    }
}

/// The value of a carrier property is the number its bytes make up, the least
/// significant one first: a number that was written into a carrier of one, two,
/// four or eight bytes is read back, provided that it is a size.
pub proof fn carriers_hold_their_number(n8: u8, n16: u16, n32: u32, n64: u64)
    ensures
        index_value(seq![n8]) == Some(n8 as usize),
        index_value(bytes::u16_bytes(n16)) == Some(n16 as usize),
        index_value(bytes::u32_bytes(n32)) == Some(n32 as usize),
        n64 <= usize::MAX ==> index_value(bytes::u64_bytes(n64)) == Some(n64 as usize),
        n64 > usize::MAX ==> index_value(bytes::u64_bytes(n64)) is None,
{
    let none = Seq::<u8>::empty();
    bytes::u16_round_trip(none, n16, none);
    bytes::u32_round_trip(none, n32, none);
    bytes::u64_round_trip(none, n64, none);
    assert(none + bytes::u16_bytes(n16) + none =~= bytes::u16_bytes(n16));
    assert(none + bytes::u32_bytes(n32) + none =~= bytes::u32_bytes(n32));
    assert(none + bytes::u64_bytes(n64) + none =~= bytes::u64_bytes(n64));
}

/// What a carrier holds is the number with its bytes as digits, the least
/// significant one first; carriers of other sizes hold none.
pub proof fn carriers_are_little_endian(carrier: Seq<u8>)
    ensures
        carrier.len() == 1 || carrier.len() == 2 || carrier.len() == 4 || carrier.len() == 8 ==> {
            match index_value(carrier) {
                Some(n) => n == bytes::little_endian(carrier),
                None => bytes::little_endian(carrier) > usize::MAX,
            }
        },
        carrier.len() != 1 && carrier.len() != 2 && carrier.len() != 4 && carrier.len() != 8
            ==> index_value(carrier) is None,
{
    bytes::stored_numbers_are_little_endian(carrier, 0);
    assert(carrier.subrange(0, carrier.len() as int) =~= carrier);
    if carrier.len() == 1 {
        reveal_with_fuel(bytes::little_endian, 2);
        assert(carrier.drop_first() =~= Seq::empty());
    }
}

/// Reads the value of a carrier property.
pub fn index_value_from_bytes(bytes: &[u8]) -> (r: Option<usize>)
    ensures
        r == index_value(bytes@),
{
    if bytes.len() == 1 {
        Some(bytes[0] as usize)
    } else if bytes.len() == 2 {
        Some(bytes::read_u16(bytes, 0) as usize)
    } else if bytes.len() == 4 {
        Some(bytes::read_u32(bytes, 0) as usize)
    } else if bytes.len() == 8 {
        let value: u64 = bytes::read_u64(bytes, 0);
        if value <= usize::MAX as u64 {
            Some(value as usize)
        } else {
            None
        }
    } else {
        None
    }
}

/// A property count: a concrete number of elements, or the index of the
/// property that holds it.
#[derive(Debug, Clone, Copy, PartialEq, Eq, Structural)]
pub enum PropertyCount {
    Count(u16),
    Index(u16),
}

impl Default for PropertyCount {
    fn default() -> (r: PropertyCount)
        ensures
            r == PropertyCount::Count(0),
    {
        PropertyCount::Count(0)
    }
}

/// A property length: a concrete length, or the index of the property that
/// holds it.
#[derive(Debug, Clone, Copy, PartialEq, Eq, Structural)]
pub enum PropertyLength {
    Length(u16),
    Index(u16),
}

impl Default for PropertyLength {
    fn default() -> (r: PropertyLength)
        ensures
            r == PropertyLength::Length(0),
    {
        PropertyLength::Length(0)
    }
}

/// What a property is made of.
///
/// A structure is described by its members: the schema yields top-level
/// properties only, and members are reachable through [`PropertyInfo::Struct`]
/// and [`PropertyInfo::StructArray`].
#[derive(Debug)]
pub enum PropertyInfo {
    Value {
        /// TDH in type of the property
        in_type: TdhInType,
        /// TDH out type of the property
        out_type: TdhOutType,
        /// The length of the property
        length: PropertyLength,
    },
    Array {
        /// TDH in type of the elements
        in_type: TdhInType,
        /// TDH out type of the elements
        out_type: TdhOutType,
        /// The length of one element
        length: PropertyLength,
        /// Number of elements
        count: PropertyCount,
    },
    /// A structure: the concatenation of its members, in layout order
    Struct {
        /// Members of the structure, possibly structures themselves
        members: Vec<Property>,
    },
    /// An array of structures: `count` elements, each laid out as `members`
    StructArray {
        /// Members of one element, possibly structures themselves
        members: Vec<Property>,
        /// Number of elements
        count: PropertyCount,
    },
    /// A property whose layout is not described by the schema. It still
    /// occupies its bytes, so it keeps its position in the property list.
    Unsupported {
        /// Schema-declared size, when fixed
        length: PropertyLength,
    },
}

impl Default for PropertyInfo {
    fn default() -> (r: PropertyInfo)
        ensures
            r == (PropertyInfo::Value {
                in_type: TdhInType::InTypeNull,
                out_type: TdhOutType::OutTypeNull,
                length: PropertyLength::Length(0),
            }),
    {
        PropertyInfo::Value {
            in_type: TdhInType::default(),
            out_type: TdhOutType::default(),
            length: PropertyLength::default(),
        }
    }
}

/// Attributes of a property
#[derive(Debug)]
pub struct Property {
    /// Name of the property
    pub name: String,
    /// Information about the property
    pub info: PropertyInfo,
}

/// Size of one element described by `in_type` and `length` when the schema
/// alone determines it.
pub open spec fn element_size(
    in_type: TdhInType,
    length: PropertyLength,
    pointer_size: usize,
) -> Option<usize> {
    if is_pointer_sized(in_type) {
        Some(pointer_size)
    } else {
        match length {
            PropertyLength::Length(l) => if l > 0 {
                Some((l * in_type.length_unit()) as usize)
            } else {
                in_type.spec_fixed_size()
            },
            PropertyLength::Index(_) => None,
        }
    }
}

/// Size of `count` elements of size `element`, when both are known and the
/// product is a size.
pub open spec fn repeated(element: Option<usize>, count: PropertyCount) -> Option<usize> {
    match (element, count) {
        (Some(e), PropertyCount::Count(c)) => fit(e * c),
        _ => None,
    }
}

/// Size of a property when the schema alone determines it.
pub open spec fn property_fixed_size(info: PropertyInfo, pointer_size: usize) -> Option<usize>
    decreases info,
{
    match info {
        PropertyInfo::Value { in_type, length, .. } => element_size(in_type, length, pointer_size),
        PropertyInfo::Array { in_type, length, count, .. } => repeated(
            element_size(in_type, length, pointer_size),
            count,
        ),
        PropertyInfo::Struct { members } => members_fixed_size(members@, pointer_size),
        PropertyInfo::StructArray { members, count } => repeated(
            members_fixed_size(members@, pointer_size),
            count,
        ),
        PropertyInfo::Unsupported { length } => match length {
            PropertyLength::Length(l) => if l > 0 {
                Some(l as usize)
            } else {
                None
            },
            PropertyLength::Index(_) => None,
        },
    }
}

/// Sum of the sizes of `members`, when the schema alone determines each of
/// them and the sum is a size.
pub open spec fn members_fixed_size(members: Seq<Property>, pointer_size: usize) -> Option<usize>
    decreases members,
{
    if members.len() == 0 {
        Some(0)
    } else {
        match (
            members_fixed_size(members.drop_last(), pointer_size),
            property_fixed_size(members.last().info, pointer_size),
        ) {
            (Some(a), Some(b)) => fit(a + b),
            _ => None,
        }
    }
}

/// Product of a known element size and a literal count.
fn repeat_size(element: Option<usize>, count: PropertyCount) -> (r: Option<usize>)
    ensures
        r == repeated(element, count),
{
    match (element, count) {
        (Some(e), PropertyCount::Count(c)) => e.checked_mul(c as usize),
        _ => None,
    }
}

/// Size of one element when the schema alone determines it.
fn schema_element_size(in_type: TdhInType, length: PropertyLength, pointer_size: usize) -> (r: Option<
    usize,
>)
    ensures
        r == element_size(in_type, length, pointer_size),
{
    if in_type.pointer_sized() {
        return Some(pointer_size);
    }
    match length {
        PropertyLength::Length(l) => if l > 0 {
            Some(in_type.literal_schema_length_bytes(l))
        } else {
            in_type.fixed_size()
        },
        PropertyLength::Index(_) => None,
    }
}

impl PropertyInfo {
    /// Size in bytes when the description alone determines it, see
    /// [`Property::fixed_size`].
    pub fn fixed_size(&self, pointer_size: usize) -> (r: Option<usize>)
        ensures
            r == property_fixed_size(*self, pointer_size),
        decreases *self, 0nat,
    {
        match self {
            PropertyInfo::Value { in_type, length, .. } => schema_element_size(
                *in_type,
                *length,
                pointer_size,
            ),
            PropertyInfo::Array { in_type, length, count, .. } => repeat_size(
                schema_element_size(*in_type, *length, pointer_size),
                *count,
            ),
            PropertyInfo::Struct { members } => sum_fixed_sizes(members, pointer_size),
            PropertyInfo::StructArray { members, count } => repeat_size(
                sum_fixed_sizes(members, pointer_size),
                *count,
            ),
            PropertyInfo::Unsupported { length } => match length {
                PropertyLength::Length(l) => if *l > 0 {
                    Some(*l as usize)
                } else {
                    None
                },
                PropertyLength::Index(_) => None,
            },
        }
    }
}

/// Sum of the members' sizes when the schema alone determines each of them.
pub fn sum_fixed_sizes(members: &Vec<Property>, pointer_size: usize) -> (r: Option<usize>)
    ensures
        r == members_fixed_size(members@, pointer_size),
    decreases *members, 0nat,
{
    let mut total: Option<usize> = Some(0);
    let mut i: usize = 0;
    while i < members.len()
        invariant
            i <= members@.len(),
            total == members_fixed_size(members@.take(i as int), pointer_size),
        decreases members@.len() - i,
    {
        assert(decreases_to!(members@ => members@[i as int]));
        let size = members[i].info.fixed_size(pointer_size);
        assert(members@.take(i + 1).drop_last() =~= members@.take(i as int));
        total = match (total, size) {
            (Some(a), Some(b)) => a.checked_add(b),
            _ => None,
        };
        i = i + 1;
    }
    assert(members@.take(i as int) =~= members@);
    total
}

impl Property {
    /// Size in bytes when the property has a fixed layout, or `None` when it
    /// is variable-length (strings without an explicit length, lengths or
    /// counts held by another property, ...) or when the total is not a size.
    ///
    /// The size of a structure is the sum of its members' fixed sizes, which
    /// spares a TDH round-trip in the common all-fixed case.
    pub fn fixed_size(&self, pointer_size: usize) -> (r: Option<usize>)
        ensures
            r == property_fixed_size(self.info, pointer_size),
    {
        self.info.fixed_size(pointer_size)
    }
}

/// Flags of an `EVENT_PROPERTY_INFO`
#[derive(Debug, Clone, Copy, PartialEq, Eq, Hash, Structural)]
pub struct PropertyFlags {
    pub bits: u32,
}

pub const PROPERTY_STRUCT: u32 = 0x1;

pub const PROPERTY_PARAM_LENGTH: u32 = 0x2;

pub const PROPERTY_PARAM_COUNT: u32 = 0x4;

pub const PROPERTY_WBEMXML_FRAGMENT: u32 = 0x8;

pub const PROPERTY_PARAM_FIXED_LENGTH: u32 = 0x10;

pub const PROPERTY_PARAM_FIXED_COUNT: u32 = 0x20;

pub const PROPERTY_HAS_TAGS: u32 = 0x40;

pub const PROPERTY_HAS_CUSTOM_SCHEMA: u32 = 0x80;

/// Every flag this crate knows.
pub const PROPERTY_ALL_FLAGS: u32 = 0xff;

/// Whether all bits of `flag` are set in `bits`.
pub open spec fn has_flag(bits: u32, flag: u32) -> bool {
    bits & flag == flag
}

impl PropertyFlags {
    /// The known flags among `bits`; unknown bits are dropped.
    pub fn from_bits_truncate(bits: u32) -> (r: PropertyFlags)
        ensures
            r.bits == bits & PROPERTY_ALL_FLAGS,
            forall|flag: u32|
                flag & PROPERTY_ALL_FLAGS == flag ==> (#[trigger] has_flag(r.bits, flag)
                    <==> has_flag(bits, flag)),
    {
        assert forall|flag: u32| flag & PROPERTY_ALL_FLAGS == flag implies (#[trigger] has_flag(
            bits & PROPERTY_ALL_FLAGS,
            flag,
        ) <==> has_flag(bits, flag)) by {
            assert(flag & 0xff == flag ==> ((bits & 0xff) & flag == flag <==> bits & flag == flag))
                by (bit_vector);
        }
        PropertyFlags { bits: bits & PROPERTY_ALL_FLAGS }
    }

    /// Whether all bits of `flag` are set.
    pub fn contains(self, flag: u32) -> (r: bool)
        ensures
            r == has_flag(self.bits, flag),
    {
        self.bits & flag == flag
    }
}

/// One entry of `TRACE_EVENT_INFO.EventPropertyInfoArray`.
///
/// The native structure overlays several meanings on the same fields: which one
/// holds follows from the flags.
#[derive(Debug, Clone, Copy, PartialEq, Eq, Structural)]
pub struct EventPropertyInfo {
    /// `Flags`, as a bit pattern
    pub flags: u32,
    /// Offset of the NUL-terminated UTF-16 name from the start of the schema buffer
    pub name_offset: u32,
    /// `InType`, or `StructStartIndex` for a structure
    pub in_type: u16,
    /// `OutType`, or `NumOfStructMembers` for a structure
    pub out_type: u16,
    /// `count`, or `countPropertyIndex` with [`PROPERTY_PARAM_COUNT`]
    pub count: u16,
    /// `length`, or `lengthPropertyIndex` with [`PROPERTY_PARAM_LENGTH`]
    pub length: u16,
}

/// Where the length of a property comes from.
pub open spec fn length_of(entry: EventPropertyInfo) -> PropertyLength {
    if has_flag(entry.flags, PROPERTY_PARAM_LENGTH) {
        PropertyLength::Index(entry.length)
    } else {
        PropertyLength::Length(entry.length)
    }
}

/// The element count of an entry, or `None` for a scalar.
///
/// With [`PROPERTY_PARAM_COUNT`] the entry holds a property index, which may
/// legitimately be 0 or 1. A literal count of 0 or 1 is how TDH reports
/// properties that are not arrays.
pub open spec fn count_of(entry: EventPropertyInfo) -> Option<PropertyCount> {
    if has_flag(entry.flags, PROPERTY_PARAM_COUNT) {
        Some(PropertyCount::Index(entry.count))
    } else if entry.count > 1 {
        Some(PropertyCount::Count(entry.count))
    } else {
        None
    }
}

/// Whether `t` is what TDH denotes by `code`, unknown codes standing for the
/// null type.
pub open spec fn in_type_of(code: u16, t: TdhInType) -> bool {
    t.code() == code || (t is InTypeNull && forall|u: TdhInType| #[trigger] u.code() != code)
}

/// Whether `t` is what TDH denotes by `code`, unknown codes standing for the
/// null type.
pub open spec fn out_type_of(code: u16, t: TdhOutType) -> bool {
    t.code() == code || (t is OutTypeNull && forall|u: TdhOutType| #[trigger] u.code() != code)
}

/// Whether `info` describes the non-structure entry `entry`.
pub open spec fn describes(entry: EventPropertyInfo, info: PropertyInfo) -> bool {
    if has_flag(entry.flags, PROPERTY_HAS_CUSTOM_SCHEMA) {
        info == (PropertyInfo::Unsupported { length: length_of(entry) })
    } else {
        match (count_of(entry), info) {
            (Some(c), PropertyInfo::Array { in_type, out_type, length, count }) => {
                &&& in_type_of(entry.in_type, in_type)
                &&& out_type_of(entry.out_type, out_type)
                &&& length == length_of(entry)
                &&& count == c
            },
            (None, PropertyInfo::Value { in_type, out_type, length }) => {
                &&& in_type_of(entry.in_type, in_type)
                &&& out_type_of(entry.out_type, out_type)
                &&& length == length_of(entry)
            },
            _ => false,
        }
    }
}

/// The flags are single bits of a number: structure, length and count held by
/// another property, and layout that is not described.
pub proof fn flags_are_bits(flags: u32)
    ensures
        has_flag(flags, PROPERTY_STRUCT) <==> flags % 2 == 1,
        has_flag(flags, PROPERTY_PARAM_LENGTH) <==> flags / 2 % 2 == 1,
        has_flag(flags, PROPERTY_PARAM_COUNT) <==> flags / 4 % 2 == 1,
        has_flag(flags, PROPERTY_HAS_CUSTOM_SCHEMA) <==> flags / 128 % 2 == 1,
{
    assert(flags & 1 == 1 <==> flags % 2 == 1) by (bit_vector);
    assert(flags & 2 == 2 <==> flags / 2 % 2 == 1) by (bit_vector);
    assert(flags & 4 == 4 <==> flags / 4 % 2 == 1) by (bit_vector);
    assert(flags & 128 == 128 <==> flags / 128 % 2 == 1) by (bit_vector);
}

/// What an entry that is no structure is read as: by the bits of its flags, an
/// unsupported property, an array, or a value; with the length and the count it
/// declares, or the properties that hold these; and with the types it names.
pub proof fn entries_are_read(entry: EventPropertyInfo, info: PropertyInfo)
    requires
        describes(entry, info),
    ensures
        ({
            let length = if entry.flags / 2 % 2 == 1 {
                PropertyLength::Index(entry.length)
            } else {
                PropertyLength::Length(entry.length)
            };
            let by_reference = entry.flags / 4 % 2 == 1;
            if entry.flags / 128 % 2 == 1 {
                info == PropertyInfo::Unsupported { length }
            } else if by_reference || entry.count > 1 {
                info matches PropertyInfo::Array { in_type, out_type, length: l, count } && {
                    &&& l == length
                    &&& count == if by_reference {
                        PropertyCount::Index(entry.count)
                    } else {
                        PropertyCount::Count(entry.count)
                    }
                    &&& in_type is InTypeNull || in_type.code() == entry.in_type
                    &&& out_type is OutTypeNull || out_type.code() == entry.out_type
                }
            } else {
                info matches PropertyInfo::Value { in_type, out_type, length: l } && {
                    &&& l == length
                    &&& in_type is InTypeNull || in_type.code() == entry.in_type
                    &&& out_type is OutTypeNull || out_type.code() == entry.out_type
                }
            }
        }),
{
    flags_are_bits(entry.flags);
}

/// A type that is known is recognised.
pub proof fn known_types_are_recognised(a: TdhInType, b: TdhInType, x: TdhOutType, y: TdhOutType)
    ensures
        in_type_of(a.code(), b) ==> a == b,
        out_type_of(x.code(), y) ==> x == y,
{
}

/// The numbers TDH knows the in types by.
pub proof fn in_types_have_their_numbers(t: TdhInType)
    ensures
        t is InTypeNull <==> t.code() == 0,
        t is InTypeUnicodeString <==> t.code() == 1,
        t is InTypeAnsiString <==> t.code() == 2,
        t is InTypeInt8 <==> t.code() == 3,
        t is InTypeUInt8 <==> t.code() == 4,
        t is InTypeInt16 <==> t.code() == 5,
        t is InTypeUInt16 <==> t.code() == 6,
        t is InTypeInt32 <==> t.code() == 7,
        t is InTypeUInt32 <==> t.code() == 8,
        t is InTypeInt64 <==> t.code() == 9,
        t is InTypeUInt64 <==> t.code() == 10,
        t is InTypeFloat <==> t.code() == 11,
        t is InTypeDouble <==> t.code() == 12,
        t is InTypeBoolean <==> t.code() == 13,
        t is InTypeBinary <==> t.code() == 14,
        t is InTypeGuid <==> t.code() == 15,
        t is InTypePointer <==> t.code() == 16,
        t is InTypeFileTime <==> t.code() == 17,
        t is InTypeSystemTime <==> t.code() == 18,
        t is InTypeSid <==> t.code() == 19,
        t is InTypeHexInt32 <==> t.code() == 20,
        t is InTypeHexInt64 <==> t.code() == 21,
        t is InTypeManifestCountedString <==> t.code() == 22,
        t is InTypeManifestCountedAnsiString <==> t.code() == 23,
        t is InTypeManifestCountedBinary <==> t.code() == 25,
        t is InTypeCountedString <==> t.code() == 300,
        t is InTypeCountedAnsiString <==> t.code() == 301,
        t is InTypeReversedCountedString <==> t.code() == 302,
        t is InTypeReversedCountedAnsiString <==> t.code() == 303,
        t is InTypeNonNullTerminatedString <==> t.code() == 304,
        t is InTypeNonNullTerminatedAnsiString <==> t.code() == 305,
        t is InTypeUnicodeChar <==> t.code() == 306,
        t is InTypeAnsiChar <==> t.code() == 307,
        t is InTypeSizeT <==> t.code() == 308,
        t is InTypeHexDump <==> t.code() == 309,
        t is InTypeWbemSid <==> t.code() == 310,
{
}

/// The numbers TDH knows the out types by.
pub proof fn out_types_have_their_numbers(t: TdhOutType)
    ensures
        t is OutTypeNull <==> t.code() == 0,
        t is OutTypeString <==> t.code() == 1,
        t is OutTypeDateTime <==> t.code() == 2,
        t is OutTypeInt8 <==> t.code() == 3,
        t is OutTypeUInt8 <==> t.code() == 4,
        t is OutTypeInt16 <==> t.code() == 5,
        t is OutTypeUInt16 <==> t.code() == 6,
        t is OutTypeInt32 <==> t.code() == 7,
        t is OutTypeUInt32 <==> t.code() == 8,
        t is OutTypeInt64 <==> t.code() == 9,
        t is OutTypeUInt64 <==> t.code() == 10,
        t is OutTypeFloat <==> t.code() == 11,
        t is OutTypeDouble <==> t.code() == 12,
        t is OutTypeBoolean <==> t.code() == 13,
        t is OutTypeGuid <==> t.code() == 14,
        t is OutTypeHexBinary <==> t.code() == 15,
        t is OutTypeHexInt8 <==> t.code() == 16,
        t is OutTypeHexInt16 <==> t.code() == 17,
        t is OutTypeHexInt32 <==> t.code() == 18,
        t is OutTypeHexInt64 <==> t.code() == 19,
        t is OutTypePid <==> t.code() == 20,
        t is OutTypeTid <==> t.code() == 21,
        t is OutTypePort <==> t.code() == 22,
        t is OutTypeIpv4 <==> t.code() == 23,
        t is OutTypeIpv6 <==> t.code() == 24,
        t is OutTypeSocketAddress <==> t.code() == 25,
        t is OutTypeWin32Error <==> t.code() == 30,
        t is OutTypeNtStatus <==> t.code() == 31,
        t is OutTypeHResult <==> t.code() == 32,
        t is OutTypeJson <==> t.code() == 34,
        t is OutTypeUtf8 <==> t.code() == 35,
        t is OutTypePkcs7 <==> t.code() == 36,
        t is OutTypeCodePointer <==> t.code() == 37,
        t is OutTypeDatetimeUtc <==> t.code() == 38,
{
}

/// A non-structure entry has exactly one description.
pub proof fn description_is_unique(entry: EventPropertyInfo, a: PropertyInfo, b: PropertyInfo)
    requires
        describes(entry, a),
        describes(entry, b),
    ensures
        a == b,
{
}

impl Property {
    /// Parses a non-structure property entry.
    ///
    /// Structure entries need their member entries, which only the schema has
    /// (see [`crate::native::tdh::TraceEventInfo::properties`]).
    pub fn new(name: String, property: &EventPropertyInfo) -> (r: Property)
        ensures
            r.name == name,
            describes(*property, r.info),
    {
        let flags = PropertyFlags::from_bits_truncate(property.flags);
        proof {
            assert(0x80u32 & 0xffu32 == 0x80u32 && 0x2u32 & 0xffu32 == 0x2u32 && 0x4u32 & 0xffu32
                == 0x4u32) by (bit_vector);
        }
        let length = if flags.contains(PROPERTY_PARAM_LENGTH) {
            PropertyLength::Index(property.length)
        } else {
            PropertyLength::Length(property.length)
        };
        if flags.contains(PROPERTY_HAS_CUSTOM_SCHEMA) {
            // The layout lives in an out-of-band schema: keep the property in
            // place, it occupies its bytes in the buffer
            return Property { name, info: PropertyInfo::Unsupported { length } };
        }
        let count: Option<PropertyCount> = if flags.contains(PROPERTY_PARAM_COUNT) {
            Some(PropertyCount::Index(property.count))
        } else if property.count > 1 {
            Some(PropertyCount::Count(property.count))
        } else {
            None
        };
        let out_type = match TdhOutType::from_u16(property.out_type) {
            Some(t) => t,
            None => TdhOutType::OutTypeNull,
        };
        let in_type = match TdhInType::from_u16(property.in_type) {
            Some(t) => t,
            None => TdhInType::InTypeNull,
        };
        match count {
            Some(count) => Property {
                name,
                info: PropertyInfo::Array { in_type, out_type, length, count },
            },
            None => Property { name, info: PropertyInfo::Value { in_type, out_type, length } },
        }
    }
}

} // verus!
