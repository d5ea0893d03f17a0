//! Locating and decoding the properties of an event.
use vstd::prelude::*;

use crate::bytes;
use crate::native::etw_types::event_record::EventRecord;
use crate::native::etw_types::extended_data::{
    EVENT_HEADER_EXT_TYPE_EVENT_SCHEMA_TL, EVENT_HEADER_EXT_TYPE_PROV_TRAITS,
};
use crate::native::etw_types::DecodingSource;
use crate::native::sddl::SddlNativeError;
use crate::native::tdh::{TdhNativeError, TdhNativeResult};
use crate::native::tdh_types;
use crate::native::tdh_types::{
    Property, PropertyCount, PropertyInfo, PropertyLength, TdhInType, TdhOutType,
};
use crate::schema::Schema;
use crate::text;

pub mod decoding;
pub mod laws;
pub mod reading;
pub mod sizing;
pub mod socket_address;
pub mod values;

verus! {

/// The error of a conversion from a slice to an array.
#[verifier::external_type_specification]
#[verifier::external_body]
pub struct ExTryFromSliceError(std::array::TryFromSliceError);

/// Parser module errors
#[derive(Debug)]
pub enum ParserError {
    /// No property has this name
    NotFound,
    /// An invalid type
    InvalidType,
    /// Error parsing
    ParseError,
    /// Length mismatch when parsing a type
    LengthMismatch,
    /// The property cannot be located or decoded
    PropertyError(String),
    /// An error while transforming an UTF-8 buffer into text
    Utf8Error(std::str::Utf8Error),
    /// An error trying to get a slice as an array
    SliceError(std::array::TryFromSliceError),
    /// A security identifier could not be converted into text
    SddlNativeError(SddlNativeError),
    /// TDH could not size a property
    TdhNativeError(TdhNativeError),
}

/// What a [`ParserError`] says: the variant, with its text or its native error.
pub enum ParserErrorView {
    NotFound,
    InvalidType,
    ParseError,
    LengthMismatch,
    PropertyError(Seq<char>),
    Utf8Error,
    SliceError,
    SddlNativeError(SddlNativeError),
    TdhNativeError(TdhNativeError),
}

impl View for ParserError {
    type V = ParserErrorView;

    open spec fn view(&self) -> ParserErrorView {
        match self {
            ParserError::NotFound => ParserErrorView::NotFound,
            ParserError::InvalidType => ParserErrorView::InvalidType,
            ParserError::ParseError => ParserErrorView::ParseError,
            ParserError::LengthMismatch => ParserErrorView::LengthMismatch,
            ParserError::PropertyError(s) => ParserErrorView::PropertyError(s@),
            ParserError::Utf8Error(_) => ParserErrorView::Utf8Error,
            ParserError::SliceError(_) => ParserErrorView::SliceError,
            ParserError::SddlNativeError(e) => ParserErrorView::SddlNativeError(*e),
            ParserError::TdhNativeError(e) => ParserErrorView::TdhNativeError(*e),
        }
    }
}

impl From<TdhNativeError> for ParserError {
    fn from(err: TdhNativeError) -> (r: ParserError) {
        ParserError::TdhNativeError(err)
    }
}

impl vstd::std_specs::convert::FromSpecImpl<TdhNativeError> for ParserError {
    open spec fn obeys_from_spec() -> bool {
        true
    }

    open spec fn from_spec(err: TdhNativeError) -> ParserError {
        ParserError::TdhNativeError(err)
    }
}

impl From<SddlNativeError> for ParserError {
    fn from(err: SddlNativeError) -> (r: ParserError) {
        ParserError::SddlNativeError(err)
    }
}

impl vstd::std_specs::convert::FromSpecImpl<SddlNativeError> for ParserError {
    open spec fn obeys_from_spec() -> bool {
        true
    }

    open spec fn from_spec(err: SddlNativeError) -> ParserError {
        ParserError::SddlNativeError(err)
    }
}

impl From<std::str::Utf8Error> for ParserError {
    fn from(err: std::str::Utf8Error) -> (r: ParserError) {
        ParserError::Utf8Error(err)
    }
}

impl vstd::std_specs::convert::FromSpecImpl<std::str::Utf8Error> for ParserError {
    open spec fn obeys_from_spec() -> bool {
        true
    }

    open spec fn from_spec(err: std::str::Utf8Error) -> ParserError {
        ParserError::Utf8Error(err)
    }
}

impl From<std::array::TryFromSliceError> for ParserError {
    fn from(err: std::array::TryFromSliceError) -> (r: ParserError) {
        ParserError::SliceError(err)
    }
}

impl vstd::std_specs::convert::FromSpecImpl<std::array::TryFromSliceError> for ParserError {
    open spec fn obeys_from_spec() -> bool {
        true
    }

    open spec fn from_spec(err: std::array::TryFromSliceError) -> ParserError {
        ParserError::SliceError(err)
    }
}

pub type ParserResult<T> = Result<T, ParserError>;

/// An error with the given text.
pub(crate) fn property_error<T>(message: &str) -> (r: ParserResult<T>)
    ensures
        r matches Err(e) && e@ == ParserErrorView::PropertyError(message@),
{
    Err(ParserError::PropertyError(message.to_owned()))
}

/// How the size of a property is found out.
#[derive(Debug, Clone, Copy, PartialEq, Eq, Structural)]
pub enum PropertySize {
    /// The schema and the event determine it
    Known(usize),
    /// Only TDH can tell (a costly native round-trip)
    AskTdh,
}

/// A size that is known, or that TDH is asked for.
pub open spec fn known_or_ask(size: Option<usize>) -> PropertySize {
    match size {
        Some(n) => PropertySize::Known(n),
        None => PropertySize::AskTdh,
    }
}

/// The value of the property a count or length reference points at. Only
/// references back to properties that are parsed already resolve.
pub open spec fn carrier(parsed: Seq<Seq<u8>>, index: u16) -> Option<usize> {
    if index < parsed.len() {
        tdh_types::index_value(parsed[index as int])
    } else {
        None
    }
}

/// Byte size of one element whose length is held by the property at `index`.
pub open spec fn referenced_length(in_type: TdhInType, parsed: Seq<Seq<u8>>, index: u16) -> Option<
    usize,
> {
    match carrier(parsed, index) {
        Some(n) => tdh_types::fit(n * in_type.length_unit()),
        None => None,
    }
}

/// Size of a value that no length applies to, from its type and, for strings and
/// the like, from the bytes of the event that are left.
pub open spec fn unsized_value_size(in_type: TdhInType, out_type: TdhOutType, rest: Seq<u8>) -> Result<
    PropertySize,
    ParserErrorView,
> {
    match in_type {
        TdhInType::InTypeAnsiString => {
            let n = text::first_index(rest, 0u8);
            if n < rest.len() {
                Ok(PropertySize::Known((n + 1) as usize))
            } else {
                Err(
                    ParserErrorView::PropertyError("AnsiString property is not null-terminated"@),
                )
            }
        },
        TdhInType::InTypeUnicodeString => {
            let n = text::first_index(text::units_of(rest), 0u16);
            if n < text::units_of(rest).len() {
                Ok(PropertySize::Known((2 * (n + 1)) as usize))
            } else {
                Err(
                    ParserErrorView::PropertyError(
                        "UnicodeString property is not null-terminated"@,
                    ),
                )
            }
        },
        TdhInType::InTypeManifestCountedString
        | TdhInType::InTypeCountedString
        | TdhInType::InTypeManifestCountedAnsiString
        | TdhInType::InTypeCountedAnsiString
        | TdhInType::InTypeManifestCountedBinary => match count_prefix(rest, false) {
            Ok(n) => Ok(PropertySize::Known((2 + n) as usize)),
            Err(e) => Err(e),
        },
        TdhInType::InTypeReversedCountedString
        | TdhInType::InTypeReversedCountedAnsiString => match count_prefix(rest, true) {
            Ok(n) => Ok(PropertySize::Known((2 + n) as usize)),
            Err(e) => Err(e),
        },
        TdhInType::InTypeNonNullTerminatedString
        | TdhInType::InTypeNonNullTerminatedAnsiString => Ok(
            PropertySize::Known(rest.len() as usize),
        ),
        TdhInType::InTypeSid | TdhInType::InTypeWbemSid => if rest.len() < 2 {
            Err(ParserErrorView::PropertyError("SID property is truncated"@))
        } else {
            Ok(PropertySize::Known((8 + 4 * rest[1]) as usize))
        },
        TdhInType::InTypeHexDump => if rest.len() < 4 {
            Err(ParserErrorView::PropertyError("hexdump property is truncated"@))
        } else {
            Ok(known_or_ask(tdh_types::fit(4 + bytes::u32_at(rest, 0))))
        },
        _ => if in_type is InTypeBinary && out_type is OutTypeIpv6 {
            Ok(PropertySize::Known(16))
        } else {
            Ok(known_or_ask(in_type.spec_fixed_size()))
        },
    }
}

/// The 16-bit byte count at the start of `buffer`.
pub open spec fn count_prefix(buffer: Seq<u8>, big_endian: bool) -> Result<
    usize,
    ParserErrorView,
> {
    if buffer.len() < 2 {
        Err(ParserErrorView::PropertyError("counted string does not have length"@))
    } else if big_endian {
        Ok(bytes::u16_be_at(buffer, 0) as usize)
    } else {
        Ok(bytes::u16_at(buffer, 0) as usize)
    }
}

/// Size of a scalar value.
pub open spec fn value_size(
    in_type: TdhInType,
    out_type: TdhOutType,
    length: PropertyLength,
    parsed: Seq<Seq<u8>>,
    rest: Seq<u8>,
    pointer_size: usize,
) -> Result<PropertySize, ParserErrorView> {
    if tdh_types::is_pointer_sized(in_type) {
        Ok(PropertySize::Known(pointer_size))
    } else if in_type.spec_is_content_sized() {
        unsized_value_size(in_type, out_type, rest)
    } else {
        match length {
            PropertyLength::Length(l) => if l > 0 {
                Ok(PropertySize::Known((l * in_type.length_unit()) as usize))
            } else {
                unsized_value_size(in_type, out_type, rest)
            },
            PropertyLength::Index(index) => match in_type.spec_fixed_size() {
                Some(size) => Ok(PropertySize::Known(size)),
                None => Ok(known_or_ask(referenced_length(in_type, parsed, index))),
            },
        }
    }
}

/// Size of one element of an array, when it can be told.
pub open spec fn array_element_size(
    in_type: TdhInType,
    length: PropertyLength,
    parsed: Seq<Seq<u8>>,
    pointer_size: usize,
) -> Option<usize> {
    if tdh_types::is_pointer_sized(in_type) {
        Some(pointer_size)
    } else {
        match length {
            PropertyLength::Length(l) => if l > 0 {
                Some((l * in_type.length_unit()) as usize)
            } else {
                in_type.spec_fixed_size()
            },
            PropertyLength::Index(index) => match in_type.spec_fixed_size() {
                Some(size) => Some(size),
                None => referenced_length(in_type, parsed, index),
            },
        }
    }
}

/// Size of `count` elements. No elements take no bytes, even where the size of
/// one cannot be told.
pub open spec fn array_size(element: Option<usize>, count: usize) -> PropertySize {
    if count == 0 {
        PropertySize::Known(0)
    } else {
        match element {
            Some(e) => known_or_ask(tdh_types::fit(e * count)),
            None => PropertySize::AskTdh,
        }
    }
}

/// How the size of the next property is found out, given its description, the
/// bytes of the properties parsed before it and the bytes that are left.
pub open spec fn next_size(
    info: PropertyInfo,
    parsed: Seq<Seq<u8>>,
    rest: Seq<u8>,
    pointer_size: usize,
) -> Result<PropertySize, ParserErrorView> {
    match info {
        PropertyInfo::Value { in_type, out_type, length } => value_size(
            in_type,
            out_type,
            length,
            parsed,
            rest,
            pointer_size,
        ),
        PropertyInfo::Array { in_type, length, count, .. } => {
            let element = array_element_size(in_type, length, parsed, pointer_size);
            match count {
                PropertyCount::Count(c) => Ok(array_size(element, c as usize)),
                PropertyCount::Index(index) => match carrier(parsed, index) {
                    Some(c) => Ok(array_size(element, c)),
                    None => Ok(PropertySize::AskTdh),
                },
            }
        },
        PropertyInfo::Struct { members } => Ok(
            known_or_ask(tdh_types::members_fixed_size(members@, pointer_size)),
        ),
        PropertyInfo::StructArray { members, count } => {
            let element = tdh_types::members_fixed_size(members@, pointer_size);
            match (element, count) {
                (Some(e), PropertyCount::Count(c)) => Ok(known_or_ask(tdh_types::fit(e * c))),
                (Some(e), PropertyCount::Index(index)) => match carrier(parsed, index) {
                    Some(c) => Ok(known_or_ask(tdh_types::fit(e * c))),
                    None => Ok(PropertySize::AskTdh),
                },
                _ => Ok(PropertySize::AskTdh),
            }
        },
        PropertyInfo::Unsupported { length } => match length {
            PropertyLength::Length(l) => if l > 0 {
                Ok(PropertySize::Known(l as usize))
            } else {
                Ok(PropertySize::AskTdh)
            },
            PropertyLength::Index(index) => Ok(known_or_ask(carrier(parsed, index))),
        },
    }
}

/// A property of the schema with its bytes in the event.
#[derive(Debug, Clone, Copy)]
pub struct PropertySlice<'schema, 'record> {
    pub property: &'schema Property,
    pub buffer: &'record [u8],
    /// How far the bytes lie behind an address that suits every element of an
    /// array
    pub misalignment: usize,
}

/// The largest alignment of an element of an array.
pub const MAX_ALIGN: usize = 8;

/// How far the byte at `offset` lies behind a multiple of the largest alignment,
/// when the byte at 0 lies `base` behind one.
pub open spec fn misaligned(base: int, offset: int) -> int {
    (base + offset) % MAX_ALIGN as int
}

/// How far the byte at `offset` lies behind a multiple of the largest alignment.
pub fn misalignment_at(base: usize, offset: usize) -> (r: usize)
    ensures
        r == misaligned(base as int, offset as int),
        r < MAX_ALIGN,
{
    proof {
        vstd::arithmetic::div_mod::lemma_add_mod_noop(base as int, offset as int, 8);
    }
    (base % MAX_ALIGN + offset % MAX_ALIGN) % MAX_ALIGN
}

/// The bytes of each slice.
pub open spec fn slice_bytes(slices: Seq<PropertySlice>) -> Seq<Seq<u8>> {
    Seq::new(slices.len(), |i: int| slices[i].buffer@)
}

/// Reads the 16-bit byte count that prefixes a counted string.
pub fn read_count_prefix(buffer: &[u8], big_endian: bool) -> (r: ParserResult<usize>)
    ensures
        match r {
            Ok(n) => count_prefix(buffer@, big_endian) == Ok::<usize, ParserErrorView>(n),
            Err(e) => count_prefix(buffer@, big_endian) == Err::<usize, ParserErrorView>(e@),
        },
{
    if buffer.len() < 2 {
        return property_error("counted string does not have length");
    }
    Ok(
        if big_endian {
            bytes::read_u16_be(buffer, 0) as usize
        } else {
            bytes::read_u16(buffer, 0) as usize
        },
    )
}

/// Looks up the value a count or length reference points at.
fn resolve_index(parsed: &Vec<PropertySlice>, index: u16) -> (r: Option<usize>)
    ensures
        r == carrier(slice_bytes(parsed@), index),
{
    if (index as usize) < parsed.len() {
        tdh_types::index_value_from_bytes(parsed[index as usize].buffer)
    } else {
        None
    }
}

/// Looks up a length and converts it to bytes.
fn resolve_length(in_type: TdhInType, parsed: &Vec<PropertySlice>, index: u16) -> (r: Option<usize>)
    ensures
        r == referenced_length(in_type, slice_bytes(parsed@), index),
{
    match resolve_index(parsed, index) {
        Some(n) => in_type.schema_length_bytes(n),
        None => None,
    }
}

/// A size that is known, or that TDH is asked for.
fn size_or_ask(size: Option<usize>) -> (r: PropertySize)
    ensures
        r == known_or_ask(size),
{
    match size {
        Some(n) => PropertySize::Known(n),
        None => PropertySize::AskTdh,
    }
}

/// Index of the first NUL code unit of packed wide data.
fn find_wide_nul(buffer: &[u8]) -> (r: Option<usize>)
    ensures
        match r {
            Some(n) => {
                &&& n < text::units_of(buffer@).len()
                &&& n == text::first_index(text::units_of(buffer@), 0u16)
            },
            None => text::first_index(text::units_of(buffer@), 0u16) == text::units_of(
                buffer@,
            ).len(),
        },
{
    let ghost units = text::units_of(buffer@);
    let n: usize = buffer.len() / 2;
    let mut i: usize = 0;
    while i < n
        invariant
            i <= n,
            n == buffer@.len() / 2,
            units == text::units_of(buffer@),
            forall|j: int| 0 <= j < i ==> units[j] != 0,
        decreases n - i,
    {
        assert(2 * i + 2 <= buffer.len());
        let unit: u16 = bytes::read_u16(buffer, 2 * i);
        if unit == 0 {
            proof {
                text::first_index_is(units, 0u16, i as int);
            }
            return Some(i);
        }
        i = i + 1;
    }
    proof {
        text::first_index_is(units, 0u16, n as int);
    }
    None
}

/// Whether `r` is what the sizing rules yield.
pub open spec fn sizes_as(
    r: ParserResult<PropertySize>,
    expected: Result<PropertySize, ParserErrorView>,
) -> bool {
    match r {
        Ok(size) => expected == Ok::<PropertySize, ParserErrorView>(size),
        Err(e) => expected == Err::<PropertySize, ParserErrorView>(e@),
    }
}

/// Sizes a value that no length applies to.
fn find_unsized_value_size(in_type: TdhInType, out_type: TdhOutType, rest: &[u8]) -> (r: ParserResult<
    PropertySize,
>)
    ensures
        sizes_as(r, unsized_value_size(in_type, out_type, rest@)),
{
    match in_type {
        TdhInType::InTypeAnsiString => {
            // The property spans up to and including the NUL terminator
            match memchr::memchr(0, rest) {
                Some(n) => {
                    proof {
                        text::first_index_is(rest@, 0u8, n as int);
                    }
                    assert(n < rest.len());
                    Ok(PropertySize::Known(n + 1))
                },
                None => {
                    proof {
                        text::first_index_is(rest@, 0u8, rest@.len() as int);
                    }
                    property_error("AnsiString property is not null-terminated")
                },
            }
        },
        TdhInType::InTypeUnicodeString => {
            match find_wide_nul(rest) {
                Some(n) => {
                    assert(2 * (n + 1) <= rest.len());
                    Ok(PropertySize::Known(2 * (n + 1)))
                },
                None => property_error("UnicodeString property is not null-terminated"),
            }
        },
        TdhInType::InTypeManifestCountedString
        | TdhInType::InTypeCountedString
        | TdhInType::InTypeManifestCountedAnsiString
        | TdhInType::InTypeCountedAnsiString
        | TdhInType::InTypeManifestCountedBinary => match read_count_prefix(rest, false) {
            Ok(n) => Ok(PropertySize::Known(2 + n)),
            Err(e) => Err(e),
        },
        TdhInType::InTypeReversedCountedString
        | TdhInType::InTypeReversedCountedAnsiString => match read_count_prefix(rest, true) {
            Ok(n) => Ok(PropertySize::Known(2 + n)),
            Err(e) => Err(e),
        },
        TdhInType::InTypeNonNullTerminatedString
        | TdhInType::InTypeNonNullTerminatedAnsiString => Ok(PropertySize::Known(rest.len())),
        TdhInType::InTypeSid | TdhInType::InTypeWbemSid => {
            // Revision, count of relative ids, 6 bytes of authority, then 4
            // bytes per relative id
            if rest.len() < 2 {
                return property_error("SID property is truncated");
            }
            Ok(PropertySize::Known(8 + 4 * (rest[1] as usize)))
        },
        TdhInType::InTypeHexDump => {
            if rest.len() < 4 {
                return property_error("hexdump property is truncated");
            }
            let count: usize = bytes::read_u32(rest, 0) as usize;
            Ok(size_or_ask(count.checked_add(4)))
        },
        _ => {
            if in_type == TdhInType::InTypeBinary && out_type == TdhOutType::OutTypeIpv6 {
                return Ok(PropertySize::Known(16));
            }
            Ok(size_or_ask(in_type.fixed_size()))
        },
    }
}

/// Finds out how many bytes of the event the next property takes.
///
/// `parsed` holds the properties before it, which may carry its length or its
/// count, and `rest` the bytes of the event from its first one on.
pub fn find_property_size(
    property: &Property,
    parsed: &Vec<PropertySlice>,
    rest: &[u8],
    pointer_size: usize,
) -> (r: ParserResult<PropertySize>)
    ensures
        sizes_as(r, next_size(property.info, slice_bytes(parsed@), rest@, pointer_size)),
{
    match &property.info {
        PropertyInfo::Value { in_type, out_type, length } => {
            // A pointer is sized by the header flags
            if in_type.pointer_sized() {
                return Ok(PropertySize::Known(pointer_size));
            }
            if !in_type.is_content_sized() {
                match length {
                    PropertyLength::Length(l) => {
                        if *l > 0 {
                            return Ok(PropertySize::Known(in_type.literal_schema_length_bytes(*l)));
                        }
                    },
                    PropertyLength::Index(index) => {
                        return match in_type.fixed_size() {
                            Some(size) => Ok(PropertySize::Known(size)),
                            None => Ok(size_or_ask(resolve_length(*in_type, parsed, *index))),
                        };
                    },
                }
            }
            find_unsized_value_size(*in_type, *out_type, rest)
        },
        PropertyInfo::Array { in_type, length, count, .. } => {
            let element: Option<usize> = if in_type.pointer_sized() {
                Some(pointer_size)
            } else {
                match length {
                    PropertyLength::Length(l) => if *l > 0 {
                        Some(in_type.literal_schema_length_bytes(*l))
                    } else {
                        in_type.fixed_size()
                    },
                    PropertyLength::Index(index) => match in_type.fixed_size() {
                        Some(size) => Some(size),
                        None => resolve_length(*in_type, parsed, *index),
                    },
                }
            };
            let element_count: usize = match count {
                PropertyCount::Count(c) => *c as usize,
                PropertyCount::Index(index) => match resolve_index(parsed, *index) {
                    Some(c) => c,
                    None => {
                        return Ok(PropertySize::AskTdh);
                    },
                },
            };
            // An empty array occupies no bytes even when its elements are
            // variable-length
            if element_count == 0 {
                return Ok(PropertySize::Known(0));
            }
            match element {
                Some(e) => Ok(size_or_ask(e.checked_mul(element_count))),
                None => Ok(PropertySize::AskTdh),
            }
        },
        PropertyInfo::Struct { members } => Ok(
            size_or_ask(tdh_types::sum_fixed_sizes(members, pointer_size)),
        ),
        PropertyInfo::StructArray { members, count } => {
            let element = match tdh_types::sum_fixed_sizes(members, pointer_size) {
                Some(e) => e,
                None => {
                    return Ok(PropertySize::AskTdh);
                },
            };
            match count {
                PropertyCount::Count(c) => Ok(size_or_ask(element.checked_mul(*c as usize))),
                PropertyCount::Index(index) => match resolve_index(parsed, *index) {
                    Some(c) => Ok(size_or_ask(element.checked_mul(c))),
                    None => Ok(PropertySize::AskTdh),
                },
            }
        },
        PropertyInfo::Unsupported { length } => match length {
            PropertyLength::Length(l) => if *l > 0 {
                Ok(PropertySize::Known(*l as usize))
            } else {
                Ok(PropertySize::AskTdh)
            },
            PropertyLength::Index(index) => Ok(size_or_ask(resolve_index(parsed, *index))),
        },
    }
}

/// What the walk over an event depends on.
pub struct EventLayout {
    /// The top-level properties of the schema
    pub properties: Seq<Property>,
    /// The user data of the event
    pub data: Seq<u8>,
    /// Where the property values start, if that is known
    pub start: Option<usize>,
    /// Size of a pointer of the process that logged the event
    pub pointer_size: usize,
    /// The address of the user data
    pub address: usize,
}

/// What comes of trying to locate the next property.
pub enum StepView {
    /// It takes these bytes
    Parsed(Seq<u8>),
    /// TDH must tell its size first
    AskTdh,
    /// It cannot be located
    Failed(ParserErrorView),
}

/// What comes of looking up a property.
pub enum LookupView {
    /// It is the property with this index
    Found(int),
    /// TDH must tell the size of the property with this index first
    AskTdh(int),
    /// It cannot be located
    Failed(ParserErrorView),
}

/// Number of bytes of the properties in `parsed`.
pub open spec fn total_len(parsed: Seq<Seq<u8>>) -> nat
    decreases parsed.len(),
{
    if parsed.len() == 0 {
        0
    } else {
        total_len(parsed.drop_last()) + parsed.last().len()
    }
}

/// Index of the first of the first `n` properties that is called `name`.
pub open spec fn first_named(properties: Seq<Property>, name: Seq<char>, n: int) -> Option<int>
    decreases n,
{
    if n <= 0 {
        None
    } else {
        match first_named(properties, name, n - 1) {
            Some(i) => Some(i),
            None => if properties[n - 1].name@ == name {
                Some(n - 1)
            } else {
                None
            },
        }
    }
}

/// The first `n` bytes of `rest` as a property, if there are that many.
pub open spec fn take_bytes(rest: Seq<u8>, n: int) -> StepView {
    if n <= rest.len() {
        StepView::Parsed(rest.take(n))
    } else {
        StepView::Failed(ParserErrorView::PropertyError("Property length out of buffer bounds"@))
    }
}

impl EventLayout {
    /// The bytes of the event that come after the properties in `parsed`.
    pub open spec fn rest(self, parsed: Seq<Seq<u8>>) -> Seq<u8> {
        self.data.skip(self.start->0 + total_len(parsed))
    }

    /// How far a property of `parsed` lies behind a multiple of the largest
    /// alignment.
    pub open spec fn misalignment_of(self, parsed: Seq<Seq<u8>>, i: int) -> int {
        misaligned(self.address as int, self.start->0 + total_len(parsed.take(i)))
    }

    /// Tries to locate the property after those in `parsed`.
    pub open spec fn step(self, parsed: Seq<Seq<u8>>) -> StepView {
        if parsed.len() >= self.properties.len() {
            StepView::Failed(ParserErrorView::NotFound)
        } else if self.start is None {
            StepView::Failed(
                ParserErrorView::PropertyError(
                    "unsupported event layout: inline TraceLogging metadata"@,
                ),
            )
        } else if self.start->0 + total_len(parsed) > self.data.len() {
            StepView::Failed(ParserErrorView::PropertyError("Invalid buffer bounds"@))
        } else {
            match next_size(
                self.properties[parsed.len() as int].info,
                parsed,
                self.rest(parsed),
                self.pointer_size,
            ) {
                Ok(PropertySize::Known(n)) => take_bytes(self.rest(parsed), n as int),
                Ok(PropertySize::AskTdh) => StepView::AskTdh,
                Err(e) => StepView::Failed(e),
            }
        }
    }

    /// Walks on from `parsed` until a property called `name` was located: what
    /// is parsed then, and what came of it.
    pub open spec fn walk_to_name(self, parsed: Seq<Seq<u8>>, name: Seq<char>) -> (
        Seq<Seq<u8>>,
        LookupView,
    )
        decreases self.properties.len() - parsed.len(),
    {
        match self.step(parsed) {
            StepView::Parsed(b) => if self.properties[parsed.len() as int].name@ == name {
                (parsed.push(b), LookupView::Found(parsed.len() as int))
            } else {
                self.walk_to_name(parsed.push(b), name)
            },
            StepView::AskTdh => (parsed, LookupView::AskTdh(parsed.len() as int)),
            StepView::Failed(e) => (parsed, LookupView::Failed(e)),
        }
    }

    /// Looks up a property by name when `parsed` is parsed already: the first
    /// one of that name.
    pub open spec fn lookup(self, parsed: Seq<Seq<u8>>, name: Seq<char>) -> (
        Seq<Seq<u8>>,
        LookupView,
    ) {
        match first_named(self.properties, name, parsed.len() as int) {
            Some(i) => (parsed, LookupView::Found(i)),
            None => self.walk_to_name(parsed, name),
        }
    }

    /// Walks on from `parsed` until the property with the given index was
    /// located.
    pub open spec fn walk_to_index(self, parsed: Seq<Seq<u8>>, index: int) -> (
        Seq<Seq<u8>>,
        LookupView,
    )
        decreases self.properties.len() - parsed.len(),
    {
        if index < parsed.len() {
            (parsed, LookupView::Found(index))
        } else {
            match self.step(parsed) {
                StepView::Parsed(b) => self.walk_to_index(parsed.push(b), index),
                StepView::AskTdh => (parsed, LookupView::AskTdh(parsed.len() as int)),
                StepView::Failed(e) => (parsed, LookupView::Failed(e)),
            }
        }
    }

    /// Whether `parsed` lie one after the other from the start of the values on.
    pub open spec fn is_consecutive(self, parsed: Seq<Seq<u8>>) -> bool {
        &&& parsed.len() <= self.properties.len()
        &&& parsed.len() > 0 ==> self.start is Some
        &&& self.start is Some ==> self.start->0 + total_len(parsed) <= self.data.len()
        &&& forall|i: int|
            0 <= i < parsed.len() ==> #[trigger] parsed[i] == self.data.subrange(
                self.start->0 + total_len(parsed.take(i)),
                self.start->0 + total_len(parsed.take(i)) + parsed[i].len(),
            )
    }

    /// Whether each of `parsed` is as long as the sizing rules say, where they
    /// decide.
    pub open spec fn is_sized(self, parsed: Seq<Seq<u8>>) -> bool {
        forall|i: int|
            0 <= i < parsed.len() && self.step(parsed.take(i)) !is AskTdh ==> self.step(
                parsed.take(i),
            ) == StepView::Parsed(#[trigger] parsed[i])
    }

    /// Whether `parsed` are the first properties of the event.
    pub open spec fn holds(self, parsed: Seq<Seq<u8>>) -> bool {
        self.is_consecutive(parsed) && self.is_sized(parsed)
    }
}

/// Whether some item announces that the schema travels in extended data.
pub open spec fn has_schema_item(record: EventRecord) -> bool {
    exists|i: int|
        0 <= i < record.extended_data@.len() && is_schema_item(
            #[trigger] record.extended_data@[i].ext_type,
        )
}

/// Whether items of this type carry TraceLogging metadata.
pub open spec fn is_schema_item(ext_type: u16) -> bool {
    ext_type == EVENT_HEADER_EXT_TYPE_EVENT_SCHEMA_TL || ext_type
        == EVENT_HEADER_EXT_TYPE_PROV_TRAITS
}

/// Where the property values start in the user data.
///
/// A self-describing event carries its metadata either in extended data items,
/// and its user data then holds the values only, or embedded at the start of the
/// user data, a layout that is not supported.
pub open spec fn values_start(record: EventRecord, source: DecodingSource) -> Option<usize> {
    if source is DecodingSourceTlg && !has_schema_item(record) {
        None
    } else {
        Some(0)
    }
}

/// Offset of the first property value within the user data, or `None` for the
/// unsupported inline TraceLogging metadata layout.
pub fn property_values_start(record: &EventRecord, source: DecodingSource) -> (r: Option<usize>)
    ensures
        r == values_start(*record, source),
{
    if source != DecodingSource::DecodingSourceTlg {
        return Some(0);
    }
    let items = record.extended_data();
    let mut i: usize = 0;
    while i < items.len()
        invariant
            i <= items@.len(),
            items@ == record.extended_data@,
            forall|j: int| 0 <= j < i ==> !is_schema_item(#[trigger] items@[j].ext_type),
        decreases items@.len() - i,
    {
        let ext_type: u16 = items[i].data_type();
        if ext_type == EVENT_HEADER_EXT_TYPE_EVENT_SCHEMA_TL || ext_type
            == EVENT_HEADER_EXT_TYPE_PROV_TRAITS {
            assert(is_schema_item(record.extended_data@[i as int].ext_type));
            return Some(0);
        }
        i = i + 1;
    }
    None
}

/// Properties stay consecutive when the next bytes are added as one.
proof fn consecutive_extends(layout: EventLayout, parsed: Seq<Seq<u8>>, size: int)
    requires
        layout.is_consecutive(parsed),
        layout.start is Some,
        parsed.len() < layout.properties.len(),
        0 <= size <= layout.rest(parsed).len(),
    ensures
        layout.is_consecutive(parsed.push(layout.rest(parsed).take(size))),
        total_len(parsed.push(layout.rest(parsed).take(size))) == total_len(parsed) + size,
{
    let b = layout.rest(parsed).take(size);
    let now = parsed.push(b);
    let start = layout.start->0;
    assert(now.drop_last() =~= parsed);
    assert forall|i: int| 0 <= i < now.len() implies #[trigger] now[i] == layout.data.subrange(
        start + total_len(now.take(i)),
        start + total_len(now.take(i)) + now[i].len(),
    ) by {
        if i < parsed.len() {
            assert(now.take(i) =~= parsed.take(i));
            assert(now[i] == parsed[i]);
        } else {
            assert(now.take(i) =~= parsed);
            assert(b =~= layout.data.subrange(
                start + total_len(parsed),
                start + total_len(parsed) + b.len(),
            ));
        }
    }
}

/// Properties stay sized by the rules when what the rules say is added.
proof fn sized_extends(layout: EventLayout, parsed: Seq<Seq<u8>>, b: Seq<u8>)
    requires
        layout.is_sized(parsed),
        layout.step(parsed) is AskTdh || layout.step(parsed) == StepView::Parsed(b),
    ensures
        layout.is_sized(parsed.push(b)),
{
    let now = parsed.push(b);
    assert forall|i: int|
        0 <= i < now.len() && layout.step(now.take(i)) !is AskTdh implies layout.step(now.take(i))
        == StepView::Parsed(#[trigger] now[i]) by {
        if i < parsed.len() {
            assert(now.take(i) =~= parsed.take(i));
            assert(now[i] == parsed[i]);
        } else {
            assert(now.take(i) =~= parsed);
        }
    }
}

/// What `first_named` is.
proof fn first_named_properties(properties: Seq<Property>, name: Seq<char>, n: int)
    requires
        n <= properties.len(),
    ensures
        match first_named(properties, name, n) {
            Some(i) => {
                &&& 0 <= i < n
                &&& properties[i].name@ == name
                &&& forall|j: int| 0 <= j < i ==> (#[trigger] properties[j]).name@ != name
            },
            None => forall|j: int| 0 <= j < n ==> (#[trigger] properties[j]).name@ != name,
        },
    decreases n,
{
    if n > 0 {
        first_named_properties(properties, name, n - 1);
    }
}

/// `first_named` is the only index of that name with none before it.
proof fn first_named_is(properties: Seq<Property>, name: Seq<char>, n: int, i: int)
    requires
        0 <= i < n <= properties.len(),
        properties[i].name@ == name,
        forall|j: int| 0 <= j < i ==> (#[trigger] properties[j]).name@ != name,
    ensures
        first_named(properties, name, n) == Some(i),
{
    first_named_properties(properties, name, n);
}

/// The properties that are located already, in schema order.
struct CachedSlices<'schema, 'record> {
    slices: Vec<PropertySlice<'schema, 'record>>,
    /// Whether an earlier property has the same name
    repeats: Vec<bool>,
    /// Where the next lookup by name starts: right after the last hit, as
    /// successive accesses usually advance in schema order
    next_probe: usize,
    /// Number of bytes of the located properties
    last_cached_offset: usize,
    /// Where the property values start within the user data
    data_start: Option<usize>,
}

impl<'schema, 'record> CachedSlices<'schema, 'record> {
    spec fn parsed(self) -> Seq<Seq<u8>> {
        slice_bytes(self.slices@)
    }

    spec fn layout(self, properties: Seq<Property>, record: EventRecord) -> EventLayout {
        EventLayout {
            properties,
            data: record.user_data@,
            start: self.data_start,
            pointer_size: record.spec_pointer_size(),
            address: record.user_data_address,
        }
    }

    spec fn wf(self, properties: Seq<Property>, record: EventRecord) -> bool {
        &&& self.repeats@.len() == self.slices@.len()
        &&& self.next_probe <= self.slices@.len()
        &&& self.last_cached_offset == total_len(self.parsed())
        &&& self.layout(properties, record).holds(self.parsed())
        &&& forall|i: int|
            0 <= i < self.slices@.len() ==> *(#[trigger] self.slices@[i]).property == properties[i]
        &&& forall|i: int|
            0 <= i < self.slices@.len() ==> (#[trigger] self.slices@[i]).misalignment
                == self.layout(properties, record).misalignment_of(self.parsed(), i)
        &&& forall|i: int|
            0 <= i < self.slices@.len() ==> #[trigger] self.repeats@[i] == (first_named(
                properties,
                properties[i].name@,
                i,
            ) is Some)
    }

    fn new(data_start: Option<usize>) -> (r: CachedSlices<'schema, 'record>)
        ensures
            r.data_start == data_start,
            r.parsed() == Seq::<Seq<u8>>::empty(),
            forall|properties: Seq<Property>, record: EventRecord|
                (data_start matches Some(s) ==> s <= record.user_data@.len()) ==> r.wf(
                    properties,
                    record,
                ),
    {
        let r = CachedSlices {
            slices: Vec::new(),
            repeats: Vec::new(),
            next_probe: 0,
            last_cached_offset: 0,
            data_start,
        };
        assert(r.parsed() =~= Seq::<Seq<u8>>::empty());
        r
    }

    /// The bytes that come after the located properties.
    fn remaining(&self, properties: &Vec<Property>, record: &'record EventRecord) -> (r: &'record [u8])
        requires
            self.wf(properties@, *record),
            self.data_start is Some,
        ensures
            r@ == self.layout(properties@, *record).rest(self.parsed()),
    {
        let data = record.user_buffer();
        assert(data@.len() == data.len());
        let at: usize = match self.data_start {
            Some(start) => start + self.last_cached_offset,
            None => 0,
        };
        let r = vstd::slice::slice_subrange(data, at, data.len());
        assert(r@ =~= record.user_data@.skip(at as int));
        r
    }

    /// Adds the next property, which takes `size` bytes.
    fn push_property(
        &mut self,
        properties: &'schema Vec<Property>,
        record: &'record EventRecord,
        size: usize,
    ) -> (r: ParserResult<()>)
        requires
            old(self).wf(properties@, *record),
            old(self).data_start is Some,
            old(self).slices@.len() < properties@.len(),
            ({
                let layout = old(self).layout(properties@, *record);
                let step = layout.step(old(self).parsed());
                step is AskTdh || step == take_bytes(layout.rest(old(self).parsed()), size as int)
            }),
        ensures
            final(self).wf(properties@, *record),
            final(self).data_start == old(self).data_start,
            match take_bytes(
                old(self).layout(properties@, *record).rest(old(self).parsed()),
                size as int,
            ) {
                StepView::Parsed(b) => r is Ok && final(self).parsed() == old(self).parsed().push(
                    b,
                ),
                StepView::Failed(e) => {
                    &&& r matches Err(x) && x@ == e
                    &&& final(self).parsed() == old(self).parsed()
                },
                StepView::AskTdh => true,
            },
    {
        let ghost layout = self.layout(properties@, *record);
        let ghost parsed = self.parsed();
        let rest = self.remaining(properties, record);
        if size > rest.len() {
            return property_error("Property length out of buffer bounds");
        }
        let buffer = vstd::slice::slice_subrange(rest, 0, size);
        let k: usize = self.slices.len();
        let property = &properties[k];
        let repeat = self.is_repeat(properties, property);
        assert(buffer@ =~= rest@.take(size as int));
        assert(layout.start->0 + total_len(parsed) <= record.user_data@.len());
        let start: usize = match self.data_start {
            Some(start) => start,
            None => 0,
        };
        assert(record.user_data@.len() == record.user_data.len());
        let offset: usize = start + self.last_cached_offset;
        let misalignment: usize = misalignment_at(record.user_data_address, offset);
        self.slices.push(PropertySlice { property, buffer, misalignment });
        self.repeats.push(repeat);
        assert(self.parsed() =~= parsed.push(buffer@));
        assert(parsed.push(buffer@).take(k as int) =~= parsed);
        assert forall|i: int| 0 <= i < k implies (#[trigger] self.slices@[i]).misalignment
            == layout.misalignment_of(self.parsed(), i) by {
            assert(parsed.push(buffer@).take(i) =~= parsed.take(i));
            assert(self.slices@[i] == old(self).slices@[i]);
        }
        assert(parsed.push(buffer@).drop_last() =~= parsed);
        self.last_cached_offset = self.last_cached_offset + size;
        proof {
            consecutive_extends(layout, parsed, size as int);
            sized_extends(layout, parsed, buffer@);
        }
        Ok(())
    }

    /// Whether a located property has the name of `property`, the next one.
    fn is_repeat(&self, properties: &Vec<Property>, property: &Property) -> (r: bool)
        requires
            self.slices@.len() < properties@.len(),
            *property == properties@[self.slices@.len() as int],
            forall|i: int|
                0 <= i < self.slices@.len() ==> *(#[trigger] self.slices@[i]).property
                    == properties@[i],
        ensures
            r == (first_named(properties@, property.name@, self.slices@.len() as int) is Some),
    {
        let mut i: usize = 0;
        while i < self.slices.len()
            invariant
                i <= self.slices@.len(),
                self.slices@.len() < properties@.len(),
                forall|j: int|
                    0 <= j < i ==> (#[trigger] properties@[j]).name@ != property.name@,
                forall|j: int|
                    0 <= j < self.slices@.len() ==> *(#[trigger] self.slices@[j]).property
                        == properties@[j],
            decreases self.slices@.len() - i,
        {
            if text::same_text(self.slices[i].property.name.as_str(), property.name.as_str()) {
                proof {
                    assert(properties@[i as int].name@ == property.name@);
                    first_named_is(
                        properties@,
                        property.name@,
                        self.slices@.len() as int,
                        i as int,
                    );
                }
                return true;
            }
            i = i + 1;
        }
        proof {
            first_named_properties(properties@, property.name@, self.slices@.len() as int);
        }
        false
    }

    /// Parses the next unparsed top-level property: whether it was located, as
    /// opposed to waiting for TDH to tell its size.
    ///
    /// Parse order is schema order.
    fn parse_next_property(
        &mut self,
        properties: &'schema Vec<Property>,
        record: &'record EventRecord,
    ) -> (r: ParserResult<bool>)
        requires
            old(self).wf(properties@, *record),
        ensures
            final(self).wf(properties@, *record),
            final(self).data_start == old(self).data_start,
            match old(self).layout(properties@, *record).step(old(self).parsed()) {
                StepView::Parsed(b) => {
                    &&& r == Ok::<bool, ParserError>(true)
                    &&& final(self).parsed() == old(self).parsed().push(b)
                },
                StepView::AskTdh => {
                    &&& r == Ok::<bool, ParserError>(false)
                    &&& final(self).parsed() == old(self).parsed()
                },
                StepView::Failed(e) => {
                    &&& r matches Err(x) && x@ == e
                    &&& final(self).parsed() == old(self).parsed()
                },
            },
    {
        let ghost parsed = self.parsed();
        if self.slices.len() >= properties.len() {
            return Err(ParserError::NotFound);
        }
        if self.data_start.is_none() {
            return property_error("unsupported event layout: inline TraceLogging metadata");
        }
        let rest = self.remaining(properties, record);
        match find_property_size(
            &properties[self.slices.len()],
            &self.slices,
            rest,
            record.pointer_size(),
        ) {
            Ok(PropertySize::Known(size)) => match self.push_property(properties, record, size) {
                Ok(()) => Ok(true),
                Err(e) => Err(e),
            },
            Ok(PropertySize::AskTdh) => Ok(false),
            Err(e) => Err(e),
        }
    }

    /// Whether the located property `i` is the first one called `name`.
    fn is_hit(&self, properties: &Vec<Property>, i: usize, name: &str) -> (r: bool)
        requires
            i < self.slices@.len() <= properties@.len(),
            self.repeats@.len() == self.slices@.len(),
            *self.slices@[i as int].property == properties@[i as int],
            self.repeats@[i as int] == (first_named(
                properties@,
                properties@[i as int].name@,
                i as int,
            ) is Some),
        ensures
            r == (first_named(properties@, name@, self.slices@.len() as int) == Some(i as int)),
    {
        proof {
            first_named_properties(properties@, name@, self.slices@.len() as int);
            first_named_properties(properties@, properties@[i as int].name@, i as int);
        }
        !self.repeats[i] && text::same_text(self.slices[i].property.name.as_str(), name)
    }

    /// Looks for `name` among the located properties.
    fn probe(&mut self, properties: &'schema Vec<Property>, record: &'record EventRecord, name: &str) -> (r:
        Option<usize>)
        requires
            old(self).wf(properties@, *record),
        ensures
            final(self).wf(properties@, *record),
            final(self).data_start == old(self).data_start,
            final(self).parsed() == old(self).parsed(),
            match r {
                Some(i) => first_named(properties@, name@, old(self).parsed().len() as int) == Some(
                    i as int,
                ),
                None => first_named(properties@, name@, old(self).parsed().len() as int) is None,
            },
    {
        let n: usize = self.slices.len();
        let first: usize = self.next_probe;
        let mut hit = self.probe_range(properties, first, n, name);
        if hit.is_none() {
            hit = self.probe_range(properties, 0, first, name);
        }
        proof {
            first_named_properties(properties@, name@, n as int);
        }
        match hit {
            Some(i) => {
                self.next_probe = i + 1;
            },
            None => {},
        }
        hit
    }

    /// Looks for `name` among the located properties from `from` to `to`.
    fn probe_range(&self, properties: &Vec<Property>, from: usize, to: usize, name: &str) -> (r:
        Option<usize>)
        requires
            from <= to <= self.slices@.len() <= properties@.len(),
            self.repeats@.len() == self.slices@.len(),
            forall|i: int|
                0 <= i < self.slices@.len() ==> *(#[trigger] self.slices@[i]).property
                    == properties@[i],
            forall|i: int|
                0 <= i < self.slices@.len() ==> #[trigger] self.repeats@[i] == (first_named(
                    properties@,
                    properties@[i].name@,
                    i,
                ) is Some),
        ensures
            match r {
                Some(i) => {
                    &&& from <= i < to
                    &&& first_named(properties@, name@, self.slices@.len() as int) == Some(i as int)
                },
                None => first_named(properties@, name@, self.slices@.len() as int) matches Some(k)
                    ==> !(from <= k < to),
            },
    {
        let mut i: usize = from;
        while i < to
            invariant
                from <= i <= to <= self.slices@.len() <= properties@.len(),
                self.repeats@.len() == self.slices@.len(),
                forall|j: int|
                    0 <= j < self.slices@.len() ==> *(#[trigger] self.slices@[j]).property
                        == properties@[j],
                forall|j: int|
                    0 <= j < self.slices@.len() ==> #[trigger] self.repeats@[j] == (first_named(
                        properties@,
                        properties@[j].name@,
                        j,
                    ) is Some),
                first_named(properties@, name@, self.slices@.len() as int) matches Some(k) ==> !(from
                    <= k < i),
            decreases to - i,
        {
            if self.is_hit(properties, i, name) {
                return Some(i);
            }
            i = i + 1;
        }
        None
    }

    /// Locates the first property called `name`: its index, or nothing when TDH
    /// must tell the size of the next property first.
    fn find_property(
        &mut self,
        properties: &'schema Vec<Property>,
        record: &'record EventRecord,
        name: &str,
    ) -> (r: ParserResult<Option<usize>>)
        requires
            old(self).wf(properties@, *record),
        ensures
            final(self).wf(properties@, *record),
            final(self).data_start == old(self).data_start,
            ({
                let (parsed, outcome) = old(self).layout(properties@, *record).lookup(
                    old(self).parsed(),
                    name@,
                );
                &&& final(self).parsed() == parsed
                &&& match outcome {
                    LookupView::Found(i) => {
                        &&& 0 <= i < parsed.len()
                        &&& r matches Ok(Some(x)) && x == i
                    },
                    LookupView::AskTdh(i) => {
                        &&& i == parsed.len()
                        &&& r matches Ok(None)
                    },
                    LookupView::Failed(e) => r matches Err(x) && x@ == e,
                }
            }),
    {
        let ghost layout = self.layout(properties@, *record);
        let ghost parsed = self.parsed();
        let hit = self.probe(properties, record, name);
        proof {
            first_named_properties(properties@, name@, parsed.len() as int);
        }
        if hit.is_some() {
            return Ok(hit);
        }
        // Parse properties in schema order until the name matches; a name that
        // survives the whole schema does not exist
        loop
            invariant
                self.wf(properties@, *record),
                self.data_start == old(self).data_start,
                layout == self.layout(properties@, *record),
                layout == old(self).layout(properties@, *record),
                parsed == old(self).parsed(),
                first_named(properties@, name@, parsed.len() as int) is None,
                layout.walk_to_name(self.parsed(), name@) == layout.walk_to_name(parsed, name@),
            decreases properties@.len() - self.slices@.len(),
        {
            let ghost before = self.parsed();
            match self.parse_next_property(properties, record) {
                Ok(true) => {
                    let last: usize = self.slices.len() - 1;
                    if text::same_text(self.slices[last].property.name.as_str(), name) {
                        return Ok(Some(last));
                    }
                },
                Ok(false) => {
                    return Ok(None);
                },
                Err(e) => {
                    return Err(e);
                },
            }
        }
    }

    /// Locates the property with the given index: whether it is located, as
    /// opposed to waiting for TDH to tell the size of the next property.
    fn locate_index(
        &mut self,
        properties: &'schema Vec<Property>,
        record: &'record EventRecord,
        index: usize,
    ) -> (r: ParserResult<bool>)
        requires
            old(self).wf(properties@, *record),
        ensures
            final(self).wf(properties@, *record),
            final(self).data_start == old(self).data_start,
            ({
                let (parsed, outcome) = old(self).layout(properties@, *record).walk_to_index(
                    old(self).parsed(),
                    index as int,
                );
                &&& final(self).parsed() == parsed
                &&& match outcome {
                    LookupView::Found(i) => {
                        &&& i == index < parsed.len()
                        &&& r matches Ok(true)
                    },
                    LookupView::AskTdh(i) => {
                        &&& i == parsed.len()
                        &&& r matches Ok(false)
                    },
                    LookupView::Failed(e) => r matches Err(x) && x@ == e,
                }
            }),
    {
        let ghost layout = self.layout(properties@, *record);
        let ghost parsed = self.parsed();
        while self.slices.len() <= index
            invariant
                self.wf(properties@, *record),
                self.data_start == old(self).data_start,
                layout == self.layout(properties@, *record),
                layout == old(self).layout(properties@, *record),
                parsed == old(self).parsed(),
                layout.walk_to_index(self.parsed(), index as int) == layout.walk_to_index(
                    parsed,
                    index as int,
                ),
            decreases properties@.len() - self.slices@.len(),
        {
            match self.parse_next_property(properties, record) {
                Ok(true) => {},
                Ok(false) => {
                    return Ok(false);
                },
                Err(e) => {
                    return Err(e);
                },
            }
        }
        Ok(true)
    }

    /// Adds the next property with the size TDH tells, if it was waiting for it.
    fn supply_size(
        &mut self,
        properties: &'schema Vec<Property>,
        record: &'record EventRecord,
        answer: TdhNativeResult<u32>,
    ) -> (r: ParserResult<()>)
        requires
            old(self).wf(properties@, *record),
        ensures
            final(self).wf(properties@, *record),
            final(self).data_start == old(self).data_start,
            supplied(
                old(self).layout(properties@, *record),
                old(self).parsed(),
                answer,
                final(self).parsed(),
                r,
            ),
    {
        if self.slices.len() >= properties.len() || self.data_start.is_none() {
            return Ok(());
        }
        let rest = self.remaining(properties, record);
        match find_property_size(
            &properties[self.slices.len()],
            &self.slices,
            rest,
            record.pointer_size(),
        ) {
            Ok(PropertySize::AskTdh) => match answer {
                Ok(size) => self.push_property(properties, record, size as usize),
                Err(e) => Err(ParserError::from(e)),
            },
            _ => Ok(()),
        }
    }
}

/// Whether a parser goes from `before` to `after` and returns `r` when TDH
/// answers for the size of the next property. Where the property does not wait
/// for TDH, nothing happens.
pub open spec fn supplied(
    layout: EventLayout,
    before: Seq<Seq<u8>>,
    answer: TdhNativeResult<u32>,
    after: Seq<Seq<u8>>,
    r: ParserResult<()>,
) -> bool {
    if layout.step(before) is AskTdh {
        match answer {
            Ok(size) => match take_bytes(layout.rest(before), size as int) {
                StepView::Parsed(b) => r is Ok && after == before.push(b),
                StepView::Failed(e) => after == before && (r matches Err(x) && x@ == e),
                StepView::AskTdh => false,
            },
            Err(e) => after == before && (r matches Err(x) && x@ == ParserErrorView::TdhNativeError(
                e,
            )),
        }
    } else {
        after == before && r is Ok
    }
}

/// What a lookup comes to.
#[derive(Debug)]
pub enum Lookup<T> {
    /// The property is located
    Ready(T),
    /// TDH must tell the size of the property with this index first, see
    /// [`Parser::supply_tdh_size`]
    NeedsTdhSize(usize),
}

/// Locates and decodes the properties of one event.
///
/// Properties may have variable length, so a `Parser` is only suited to a single
/// [`EventRecord`]. The properties that are located already are remembered.
pub struct Parser<'schema, 'record> {
    properties: &'schema Vec<Property>,
    record: &'record EventRecord,
    cache: CachedSlices<'schema, 'record>,
}

/// What the walk over `record` with `schema` depends on.
pub open spec fn layout_of(record: EventRecord, schema: Schema) -> EventLayout {
    EventLayout {
        properties: schema.props(),
        data: record.user_data@,
        start: values_start(record, DecodingSource::of(bytes::u32_at(schema.bytes(), 48))),
        pointer_size: record.spec_pointer_size(),
        address: record.user_data_address,
    }
}

impl<'schema, 'record> Parser<'schema, 'record> {
    /// What the walk depends on.
    pub closed spec fn layout(self) -> EventLayout {
        self.cache.layout(self.properties@, *self.record)
    }

    /// The bytes of the properties that are located already.
    pub closed spec fn parsed(self) -> Seq<Seq<u8>> {
        self.cache.parsed()
    }

    #[verifier::type_invariant]
    spec fn wf(self) -> bool {
        &&& self.cache.wf(self.properties@, *self.record)
        &&& self.cache.data_start matches Some(s) ==> s == 0
    }

    /// A parser for an event of the given schema.
    pub fn create(event_record: &'record EventRecord, schema: &'schema Schema) -> (r: Parser<
        'schema,
        'record,
    >)
        ensures
            r.layout() == layout_of(*event_record, *schema),
            r.parsed() == Seq::<Seq<u8>>::empty(),
    {
        let data_start = property_values_start(event_record, schema.decoding_source());
        Parser {
            properties: schema.properties(),
            record: event_record,
            cache: CachedSlices::new(data_start),
        }
    }

    /// What is located already are properties of the event, in order and one
    /// right after the other.
    pub fn located_count(&self) -> (r: usize)
        ensures
            r == self.parsed().len(),
            self.layout().holds(self.parsed()),
    {
        proof {
            use_type_invariant(self);
        }
        self.cache.slices.len()
    }

    /// Locates the first property called `name`.
    pub fn find_property(&mut self, name: &str) -> (r: ParserResult<
        Lookup<PropertySlice<'schema, 'record>>,
    >)
        ensures
            final(self).layout() == old(self).layout(),
            ({
                let (parsed, outcome) = old(self).layout().lookup(old(self).parsed(), name@);
                &&& final(self).parsed() == parsed
                &&& match outcome {
                    LookupView::Found(i) => {
                        &&& 0 <= i < parsed.len()
                        &&& r matches Ok(Lookup::Ready(slice)) && slice.buffer@ == parsed[i]
                            && *slice.property == old(self).layout().properties[i]
                            && slice.misalignment == old(self).layout().misalignment_of(parsed, i)
                    },
                    LookupView::AskTdh(i) => r matches Ok(Lookup::NeedsTdhSize(x)) && x == i,
                    LookupView::Failed(e) => r matches Err(x) && x@ == e,
                }
            }),
    {
        proof {
            use_type_invariant(&*self);
        }
        let mut cache = CachedSlices::new(self.cache.data_start);
        std::mem::swap(&mut self.cache, &mut cache);
        let found = cache.find_property(self.properties, self.record, name);
        let r = match found {
            Ok(Some(i)) => Ok(Lookup::Ready(cache.slices[i])),
            Ok(None) => Ok(Lookup::NeedsTdhSize(cache.slices.len())),
            Err(e) => Err(e),
        };
        self.cache = cache;
        r
    }

    /// Bytes of the `index`-th top-level property (schema order).
    ///
    /// Unlike a lookup by name this tells same-named properties apart.
    pub fn property_bytes_at(&mut self, index: usize) -> (r: ParserResult<Lookup<&'record [u8]>>)
        ensures
            final(self).layout() == old(self).layout(),
            ({
                let (parsed, outcome) = old(self).layout().walk_to_index(
                    old(self).parsed(),
                    index as int,
                );
                &&& final(self).parsed() == parsed
                &&& match outcome {
                    LookupView::Found(i) => {
                        &&& i == index < parsed.len()
                        &&& r matches Ok(Lookup::Ready(buffer)) && buffer@ == parsed[i]
                    },
                    LookupView::AskTdh(i) => r matches Ok(Lookup::NeedsTdhSize(x)) && x == i,
                    LookupView::Failed(e) => r matches Err(x) && x@ == e,
                }
            }),
    {
        proof {
            use_type_invariant(&*self);
        }
        let mut cache = CachedSlices::new(self.cache.data_start);
        std::mem::swap(&mut self.cache, &mut cache);
        let found = cache.locate_index(self.properties, self.record, index);
        let r = match found {
            Ok(true) => Ok(Lookup::Ready(cache.slices[index].buffer)),
            Ok(false) => Ok(Lookup::NeedsTdhSize(cache.slices.len())),
            Err(e) => Err(e),
        };
        self.cache = cache;
        r
    }

    /// Takes the answer of TDH for the property a lookup is waiting for. The
    /// lookup can be repeated afterwards.
    pub fn supply_tdh_size(&mut self, answer: TdhNativeResult<u32>) -> (r: ParserResult<()>)
        ensures
            final(self).layout() == old(self).layout(),
            supplied(old(self).layout(), old(self).parsed(), answer, final(self).parsed(), r),
    {
        proof {
            use_type_invariant(&*self);
        }
        let mut cache = CachedSlices::new(self.cache.data_start);
        std::mem::swap(&mut self.cache, &mut cache);
        let r = cache.supply_size(self.properties, self.record, answer);
        self.cache = cache;
        r
    }

    /// The bytes of a property that is located already.
    pub fn located_bytes(&self, index: usize) -> (r: &'record [u8])
        requires
            index < self.parsed().len(),
        ensures
            r@ == self.parsed()[index as int],
    {
        self.cache.slices[index].buffer
    }

    /// How far a property that is located already lies behind a multiple of the
    /// largest alignment.
    pub fn located_misalignment(&self, index: usize) -> (r: usize)
        requires
            index < self.parsed().len(),
        ensures
            r == self.layout().misalignment_of(self.parsed(), index as int),
    {
        proof {
            use_type_invariant(self);
        }
        self.cache.slices[index].misalignment
    }

    /// Size of a pointer of the event, in bytes.
    pub fn pointer_size(&self) -> (r: usize)
        ensures
            r == self.layout().pointer_size,
    {
        self.record.pointer_size()
    }

    /// The top-level properties of the schema behind this parser
    pub fn top_level_properties(&self) -> (r: &'schema Vec<Property>)
        ensures
            r@ == self.layout().properties,
    {
        self.properties
    }
}

/// Native errors stay what they are.
pub proof fn native_errors_are_kept(tdh: TdhNativeError, sddl: SddlNativeError)
    ensures
        <ParserError as vstd::std_specs::convert::FromSpec<TdhNativeError>>::from_spec(
            tdh,
        ) matches ParserError::TdhNativeError(e) && e == tdh,
        <ParserError as vstd::std_specs::convert::FromSpec<SddlNativeError>>::from_spec(
            sddl,
        ) matches ParserError::SddlNativeError(e) && e == sddl,
{
}

} // verus!
