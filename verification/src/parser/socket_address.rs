//! Decoding of socket address properties.
//!
//! Such a property is a raw `sockaddr`, whose size depends on the address family.
//! Some providers append a redundant `sockaddr_storage` copy to it: only the
//! leading `sockaddr` is decoded.
use vstd::prelude::*;
use vstd::string::*;

use crate::bytes;
use crate::guid;
use crate::parser::{ParserError, ParserErrorView, ParserResult};
use crate::text;

verus! {

/// Size of the family field, the only one all families share.
pub const FAMILY_LEN: usize = 2;

/// Size of an IPv4 `sockaddr`: family, port, address, 8 bytes of padding.
pub const SOCKADDR_IN_LEN: usize = 16;

/// Size of an IPv6 `sockaddr`: family, port, flow info, address, scope id.
pub const SOCKADDR_IN6_LEN: usize = 28;

/// Address family of a `sockaddr`
#[derive(Debug, Clone, Copy, PartialEq, Eq, Structural)]
pub enum AddressFamily {
    /// `AF_UNSPEC`
    Unspecified,
    /// `AF_INET` (IPv4)
    Inet,
    /// `AF_INET6` (IPv6)
    Inet6,
    /// Any other family, by its raw value
    Other(u16),
}

impl AddressFamily {
    /// The family with the raw value `raw`.
    pub open spec fn of(raw: u16) -> AddressFamily {
        if raw == 0 {
            AddressFamily::Unspecified
        } else if raw == 2 {
            AddressFamily::Inet
        } else if raw == 23 {
            AddressFamily::Inet6
        } else {
            AddressFamily::Other(raw)
        }
    }

    /// The raw value of the family.
    pub open spec fn raw(self) -> u16 {
        match self {
            AddressFamily::Unspecified => 0,
            AddressFamily::Inet => 2,
            AddressFamily::Inet6 => 23,
            AddressFamily::Other(raw) => raw,
        }
    }

    /// The raw value as stored in the `sockaddr`
    pub fn as_u16(self) -> (r: u16)
        ensures
            r == self.raw(),
    {
        match self {
            AddressFamily::Unspecified => 0,
            AddressFamily::Inet => 2,
            AddressFamily::Inet6 => 23,
            AddressFamily::Other(raw) => raw,
        }
    }

    /// Interprets the family field of a `sockaddr`
    pub fn from_u16(raw: u16) -> (r: AddressFamily)
        ensures
            r == AddressFamily::of(raw),
    {
        match raw {
            0 => AddressFamily::Unspecified,
            2 => AddressFamily::Inet,
            23 => AddressFamily::Inet6,
            other => AddressFamily::Other(other),
        }
    }

    /// The symbol of the family: no name is known for exotic ones, which are
    /// shown by their number.
    pub open spec fn symbol(self) -> Seq<char> {
        match self {
            AddressFamily::Unspecified => "AF_UNSPEC"@,
            AddressFamily::Inet => "AF_INET"@,
            AddressFamily::Inet6 => "AF_INET6"@,
            AddressFamily::Other(raw) => "AF_"@ + text::ascii_chars(
                text::decimal_ascii(raw as nat),
            ),
        }
    }

    /// The symbol of the family
    pub fn to_text(self) -> (r: String)
        ensures
            r@ == self.symbol(),
    {
        match self {
            AddressFamily::Unspecified => "AF_UNSPEC".to_owned(),
            AddressFamily::Inet => "AF_INET".to_owned(),
            AddressFamily::Inet6 => "AF_INET6".to_owned(),
            AddressFamily::Other(raw) => {
                let mut symbol = "AF_".to_owned();
                symbol.append(text::decimal_text(raw as u64).as_str());
                symbol
            },
        }
    }
}

/// Interpreting a raw value keeps it.
pub proof fn address_family_round_trip(raw: u16)
    ensures
        AddressFamily::of(raw).raw() == raw,
{
}

/// An IP address, as the number its bytes form in network order
#[derive(Debug, Clone, Copy, PartialEq, Eq, Structural)]
pub enum IpAddr {
    V4(u32),
    V6(u128),
}

/// An IPv4 socket address
#[derive(Debug, Clone, Copy, PartialEq, Eq, Structural)]
pub struct SocketAddrV4 {
    pub ip: u32,
    pub port: u16,
}

/// An IPv6 socket address
#[derive(Debug, Clone, Copy, PartialEq, Eq, Structural)]
pub struct SocketAddrV6 {
    pub ip: u128,
    pub port: u16,
    pub flow_info: u32,
    pub scope_id: u32,
}

/// An IP socket address
#[derive(Debug, Clone, Copy, PartialEq, Eq, Structural)]
pub enum SocketAddr {
    V4(SocketAddrV4),
    V6(SocketAddrV6),
}

/// A decoded socket address property
///
/// Only IPv4 and IPv6 socket addresses are decoded; anything else keeps the raw
/// bytes. The family is in host order, every other field in network order.
#[derive(Debug, PartialEq, Eq)]
pub enum TdhSocketAddress {
    /// IPv4 socket address
    Ipv4(SocketAddrV4),
    /// IPv6 socket address
    Ipv6(SocketAddrV6),
    /// Unrecognized address family or truncated `sockaddr`: raw property bytes
    Other {
        family: AddressFamily,
        raw: Vec<u8>,
    },
}

/// The big-endian `u32` at `at`.
pub open spec fn u32_be_at(s: Seq<u8>, at: int) -> u32 {
    (0x1_0000 * bytes::u16_be_at(s, at) + bytes::u16_be_at(s, at + 2)) as u32
}

/// The big-endian `u128` at `at`.
pub open spec fn u128_be_at(s: Seq<u8>, at: int) -> u128 {
    (0x1_0000_0000_0000_0000 * guid::u64_be_at(s, at) + guid::u64_be_at(s, at + 8)) as u128
}

/// Reads the big-endian `u32` at `at`.
pub fn read_u32_be(buffer: &[u8], at: usize) -> (r: u32)
    requires
        at + 4 <= buffer@.len(),
    ensures
        r == u32_be_at(buffer@, at as int),
{
    assert(at + 4 <= buffer.len());
    0x1_0000 * (bytes::read_u16_be(buffer, at) as u32) + bytes::read_u16_be(buffer, at + 2) as u32
}

/// Reads the big-endian `u128` at `at`.
pub fn read_u128_be(buffer: &[u8], at: usize) -> (r: u128)
    requires
        at + 16 <= buffer@.len(),
    ensures
        r == u128_be_at(buffer@, at as int),
{
    assert(at + 16 <= buffer.len());
    0x1_0000_0000_0000_0000 * (guid::read_u64_be(buffer, at) as u128) + guid::read_u64_be(
        buffer,
        at + 8,
    ) as u128
}

/// Whether `buffer` holds an IPv4 `sockaddr`.
pub open spec fn is_sockaddr_in(buffer: Seq<u8>) -> bool {
    buffer.len() >= SOCKADDR_IN_LEN && AddressFamily::of(bytes::u16_at(buffer, 0)) is Inet
}

/// Whether `buffer` holds an IPv6 `sockaddr`.
pub open spec fn is_sockaddr_in6(buffer: Seq<u8>) -> bool {
    buffer.len() >= SOCKADDR_IN6_LEN && AddressFamily::of(bytes::u16_at(buffer, 0)) is Inet6
}

/// Whether `addr` is what the `sockaddr` at the start of `buffer` decodes to.
pub open spec fn is_sockaddr(buffer: Seq<u8>, addr: TdhSocketAddress) -> bool {
    match addr {
        TdhSocketAddress::Ipv4(v4) => {
            &&& is_sockaddr_in(buffer)
            &&& v4.port == bytes::u16_be_at(buffer, 2)
            &&& v4.ip == u32_be_at(buffer, 4)
        },
        TdhSocketAddress::Ipv6(v6) => {
            &&& is_sockaddr_in6(buffer)
            &&& v6.port == bytes::u16_be_at(buffer, 2)
            &&& v6.flow_info == u32_be_at(buffer, 4)
            &&& v6.ip == u128_be_at(buffer, 8)
            &&& v6.scope_id == u32_be_at(buffer, 24)
        },
        TdhSocketAddress::Other { family, raw } => {
            &&& !is_sockaddr_in(buffer)
            &&& !is_sockaddr_in6(buffer)
            &&& family == AddressFamily::of(bytes::u16_at(buffer, 0))
            &&& raw@ == buffer
        },
    }
}

impl TdhSocketAddress {
    /// Decodes the leading `sockaddr` of a property
    pub fn from_property_buffer(buffer: &[u8]) -> (r: ParserResult<TdhSocketAddress>)
        ensures
            match r {
                Ok(addr) => buffer@.len() >= FAMILY_LEN && is_sockaddr(buffer@, addr),
                Err(e) => buffer@.len() < FAMILY_LEN && e@ == ParserErrorView::LengthMismatch,
            },
    {
        if buffer.len() < FAMILY_LEN {
            return Err(ParserError::LengthMismatch);
        }
        let family = AddressFamily::from_u16(bytes::read_u16(buffer, 0));
        if family == AddressFamily::Inet && buffer.len() >= SOCKADDR_IN_LEN {
            return Ok(
                TdhSocketAddress::Ipv4(
                    SocketAddrV4 {
                        ip: read_u32_be(buffer, 4),
                        port: bytes::read_u16_be(buffer, 2),
                    },
                ),
            );
        }
        if family == AddressFamily::Inet6 && buffer.len() >= SOCKADDR_IN6_LEN {
            return Ok(
                TdhSocketAddress::Ipv6(
                    SocketAddrV6 {
                        ip: read_u128_be(buffer, 8),
                        port: bytes::read_u16_be(buffer, 2),
                        flow_info: read_u32_be(buffer, 4),
                        scope_id: read_u32_be(buffer, 24),
                    },
                ),
            );
        }
        // Unsupported families and truncated addresses keep their raw bytes
        // instead of failing the whole event
        let raw = bytes::copy_range(buffer, 0, buffer.len());
        assert(raw@ =~= buffer@);
        Ok(TdhSocketAddress::Other { family, raw })
    }

    /// The address family of the underlying `sockaddr`
    pub fn family(&self) -> (r: AddressFamily)
        ensures
            r == match *self {
                TdhSocketAddress::Ipv4(_) => AddressFamily::Inet,
                TdhSocketAddress::Ipv6(_) => AddressFamily::Inet6,
                TdhSocketAddress::Other { family, .. } => family,
            },
    {
        match self {
            TdhSocketAddress::Ipv4(_) => AddressFamily::Inet,
            TdhSocketAddress::Ipv6(_) => AddressFamily::Inet6,
            TdhSocketAddress::Other { family, .. } => *family,
        }
    }

    /// The text of an address that is not decoded: its family and its size.
    pub fn other_text(&self) -> (r: Option<String>)
        ensures
            match *self {
                TdhSocketAddress::Other { family, raw } => r matches Some(s) && s@
                    == family.symbol() + " ("@ + text::ascii_chars(
                    text::decimal_ascii(raw@.len()),
                ) + " bytes)"@,
                _ => r is None,
            },
    {
        match self {
            TdhSocketAddress::Other { family, raw } => {
                let mut s = family.to_text();
                s.append(" (");
                s.append(text::decimal_text(raw.len() as u64).as_str());
                s.append(" bytes)");
                Some(s)
            },
            _ => None,
        }
    }

    /// The socket address, when the family is IPv4 or IPv6
    pub fn socket_addr(&self) -> (r: Option<SocketAddr>)
        ensures
            r == match *self {
                TdhSocketAddress::Ipv4(v4) => Some(SocketAddr::V4(v4)),
                TdhSocketAddress::Ipv6(v6) => Some(SocketAddr::V6(v6)),
                TdhSocketAddress::Other { .. } => None,
            },
    {
        match self {
            TdhSocketAddress::Ipv4(v4) => Some(SocketAddr::V4(*v4)),
            TdhSocketAddress::Ipv6(v6) => Some(SocketAddr::V6(*v6)),
            TdhSocketAddress::Other { .. } => None,
        }
    }

    /// The IP address, when the family is IPv4 or IPv6
    pub fn ip(&self) -> (r: Option<IpAddr>)
        ensures
            r == match *self {
                TdhSocketAddress::Ipv4(v4) => Some(IpAddr::V4(v4.ip)),
                TdhSocketAddress::Ipv6(v6) => Some(IpAddr::V6(v6.ip)),
                TdhSocketAddress::Other { .. } => None,
            },
    {
        match self.socket_addr() {
            Some(SocketAddr::V4(v4)) => Some(IpAddr::V4(v4.ip)),
            Some(SocketAddr::V6(v6)) => Some(IpAddr::V6(v6.ip)),
            None => None,
        }
    }

    /// The port, when the family is IPv4 or IPv6
    pub fn port(&self) -> (r: Option<u16>)
        ensures
            r == match *self {
                TdhSocketAddress::Ipv4(v4) => Some(v4.port),
                TdhSocketAddress::Ipv6(v6) => Some(v6.port),
                TdhSocketAddress::Other { .. } => None,
            },
    {
        match self.socket_addr() {
            Some(SocketAddr::V4(v4)) => Some(v4.port),
            Some(SocketAddr::V6(v6)) => Some(v6.port),
            None => None,
        }
    }
}

/// Bytes after the `sockaddr` do not matter: they change neither an IPv4 nor an
/// IPv6 address.
pub proof fn trailing_bytes_are_ignored(
    buffer: Seq<u8>,
    trailing: Seq<u8>,
    addr: TdhSocketAddress,
)
    requires
        is_sockaddr(buffer, addr),
        addr !is Other,
    ensures
        is_sockaddr(buffer + trailing, addr),
{
}

/// The numbers of an address are those whose digits stand there, the most
/// significant one first.
pub proof fn address_numbers_are_big_endian(s: Seq<u8>, at: int)
    requires
        0 <= at,
    ensures
        at + 4 <= s.len() ==> u32_be_at(s, at) == bytes::big_endian(s.subrange(at, at + 4)),
        at + 16 <= s.len() ==> u128_be_at(s, at) == bytes::big_endian(s.subrange(at, at + 16)),
{
    reveal(vstd::arithmetic::power::pow);
    if at + 4 <= s.len() {
        let d = s.subrange(at, at + 4);
        reveal_with_fuel(bytes::big_endian, 5);
        assert(d.drop_last() =~= s.subrange(at, at + 3));
        assert(d.drop_last().drop_last() =~= s.subrange(at, at + 2));
        assert(d.drop_last().drop_last().drop_last() =~= s.subrange(at, at + 1));
        assert(d.drop_last().drop_last().drop_last().drop_last() =~= Seq::empty());
    }
    if at + 16 <= s.len() {
        let high = s.subrange(at, at + 8);
        let low = s.subrange(at + 8, at + 16);
        guid::big_endian_u64_is_stored(s, at);
        guid::big_endian_u64_is_stored(s, at + 8);
        bytes::big_endian_concat(high, low);
        assert(high + low =~= s.subrange(at, at + 16));
        assert(vstd::arithmetic::power::pow(0x100, 8) == 0x1_0000_0000_0000_0000) by {
            reveal_with_fuel(vstd::arithmetic::power::pow, 9);
        }
        let x = bytes::big_endian(high);
        let power = vstd::arithmetic::power::pow(0x100, low.len());
        assert(x * power == 0x1_0000_0000_0000_0000 * x) by (nonlinear_arith)
            requires
                power == 0x1_0000_0000_0000_0000,
        ;
    }
}

/// Different IPv6 addresses are read from different bytes, and the other way
/// round: no byte of an address is lost.
pub proof fn ipv6_addresses_are_told_apart(a: Seq<u8>, b: Seq<u8>)
    requires
        a.len() == 16,
        b.len() == 16,
    ensures
        u128_be_at(a, 0) == u128_be_at(b, 0) <==> a == b,
{
    address_numbers_are_big_endian(a, 0);
    address_numbers_are_big_endian(b, 0);
    assert(a.subrange(0, 16) =~= a);
    assert(b.subrange(0, 16) =~= b);
    if u128_be_at(a, 0) == u128_be_at(b, 0) {
        bytes::big_endian_is_injective(a, b);
    }
}

/// A `sockaddr` of an IP family holds, after the family, the port, for IPv6 the
/// flow information, the address, and for IPv6 the scope, each with its most
/// significant byte first. Any other one is kept as it is.
pub proof fn fields_of_a_sockaddr(buffer: Seq<u8>, addr: TdhSocketAddress)
    requires
        buffer.len() >= 2,
        is_sockaddr(buffer, addr),
    ensures
        ({
            let family = bytes::little_endian(buffer.subrange(0, 2));
            &&& addr is Ipv4 <==> family == 2 && buffer.len() >= 16
            &&& addr is Ipv6 <==> family == 23 && buffer.len() >= 28
            &&& addr matches TdhSocketAddress::Ipv4(v4) ==> {
                &&& v4.port == bytes::big_endian(buffer.subrange(2, 4))
                &&& v4.ip == bytes::big_endian(buffer.subrange(4, 8))
            }
            &&& addr matches TdhSocketAddress::Ipv6(v6) ==> {
                &&& v6.port == bytes::big_endian(buffer.subrange(2, 4))
                &&& v6.flow_info == bytes::big_endian(buffer.subrange(4, 8))
                &&& v6.ip == bytes::big_endian(buffer.subrange(8, 24))
                &&& v6.scope_id == bytes::big_endian(buffer.subrange(24, 28))
            }
            &&& addr matches TdhSocketAddress::Other { family: f, raw } ==> {
                &&& f.raw() == family
                &&& raw@ == buffer
            }
        }),
{
    bytes::stored_numbers_are_little_endian(buffer, 0);
    if buffer.len() >= 16 {
        bytes::big_endian_u16_is_stored(buffer, 2);
        address_numbers_are_big_endian(buffer, 4);
    }
    if buffer.len() >= 28 {
        address_numbers_are_big_endian(buffer, 8);
        address_numbers_are_big_endian(buffer, 24);
    }
}

/// Families are shown by their symbols, and those without one by their number in
/// decimal.
pub proof fn families_have_their_symbols(raw: u16)
    ensures
        AddressFamily::Unspecified.symbol() == "AF_UNSPEC"@,
        AddressFamily::Inet.symbol() == "AF_INET"@,
        AddressFamily::Inet6.symbol() == "AF_INET6"@,
        exists|digits: Seq<u8>|
            #![trigger text::decimal_value(digits)]
            {
                &&& text::decimal_value(digits) == raw
                &&& forall|i: int| 0 <= i < digits.len() ==> 0x30 <= #[trigger] digits[i] <= 0x39
                &&& AddressFamily::Other(raw).symbol() == "AF_"@ + text::ascii_chars(digits)
            },
{
    text::decimal_digits_write_their_number(raw as nat);
    let digits = text::decimal_ascii(raw as nat);
    assert(text::decimal_value(digits) == raw);
}

} // verus!
