//! Globally unique identifiers.
use vstd::prelude::*;

use crate::bytes;
use crate::text;

verus! {

/// A globally unique identifier.
#[derive(Debug, Clone, Copy, PartialEq, Eq, Hash, Structural)]
pub struct GUID {
    /// First 8 hexadecimal digits
    pub data1: u32,
    /// First group of 4 hexadecimal digits
    pub data2: u16,
    /// Second group of 4 hexadecimal digits
    pub data3: u16,
    /// Third group of 4 hexadecimal digits, then the final 12
    pub data4: u64,
}

impl GUID {
    /// The identifier read as one 128-bit number.
    pub open spec fn value(self) -> int {
        self.data1 * 0x1_0000_0000_0000_0000_0000_0000 + self.data2 * 0x1_0000_0000_0000_0000_0000
            + self.data3 * 0x1_0000_0000_0000_0000 + self.data4
    }

    /// The all-zero identifier.
    pub fn zeroed() -> (r: GUID)
        ensures
            r.value() == 0,
    {
        GUID { data1: 0, data2: 0, data3: 0, data4: 0 }
    }

    /// The identifier whose 128-bit value is `value`.
    pub fn from_u128(value: u128) -> (r: GUID)
        ensures
            r.value() == value,
            r == guid_of_value(value as int),
    {
        proof {
            guid_of_value_has_the_value(value);
        }
        guid_from_digits(value)
    }

    /// The 128-bit value of the identifier.
    pub fn to_u128(&self) -> (r: u128)
        ensures
            r == self.value(),
    {
        self.data1 as u128 * 0x1_0000_0000_0000_0000_0000_0000 + self.data2 as u128
            * 0x1_0000_0000_0000_0000_0000 + self.data3 as u128 * 0x1_0000_0000_0000_0000
            + self.data4 as u128
    }
}

/// Identifiers with the same 128-bit value are the same.
pub proof fn guid_values_are_distinct(a: GUID, b: GUID)
    ensures
        a.value() == b.value() ==> a == b,
{
    let x = a.data1 * 0x1_0000_0000 + a.data2 * 0x1_0000 + a.data3;
    let y = b.data1 * 0x1_0000_0000 + b.data2 * 0x1_0000 + b.data3;
    assert(a.value() == 0x1_0000_0000_0000_0000 * x + a.data4);
    assert(b.value() == 0x1_0000_0000_0000_0000 * y + b.data4);
    if a.value() == b.value() {
        assert(x == y);
        assert(a.data1 == b.data1);
        assert(a.data2 == b.data2);
    }
}

/// The big-endian `u64` stored at `at`.
pub open spec fn u64_be_at(s: Seq<u8>, at: int) -> u64 {
    (0x1_0000_0000_0000 * bytes::u16_be_at(s, at) + 0x1_0000_0000 * bytes::u16_be_at(s, at + 2) + 0x1_0000
        * bytes::u16_be_at(s, at + 4) + bytes::u16_be_at(s, at + 6)) as u64
}

/// The identifier stored in the 16 bytes at `at`: the first three fields are
/// little-endian, the last eight bytes follow in reading order.
pub open spec fn guid_at(s: Seq<u8>, at: int) -> GUID {
    GUID {
        data1: bytes::u32_at(s, at),
        data2: bytes::u16_at(s, at + 4),
        data3: bytes::u16_at(s, at + 6),
        data4: u64_be_at(s, at + 8),
    }
}

/// Reads the big-endian `u64` at `at`.
pub fn read_u64_be(buffer: &[u8], at: usize) -> (r: u64)
    requires
        at + 8 <= buffer@.len(),
    ensures
        r == u64_be_at(buffer@, at as int),
{
    assert(at + 8 <= buffer.len());
    0x1_0000_0000_0000 * (bytes::read_u16_be(buffer, at) as u64) + 0x1_0000_0000 * (
    bytes::read_u16_be(buffer, at + 2) as u64) + 0x1_0000 * (bytes::read_u16_be(
        buffer,
        at + 4,
    ) as u64) + bytes::read_u16_be(buffer, at + 6) as u64
}

/// Reads the identifier stored at `at`.
pub fn read_guid(buffer: &[u8], at: usize) -> (r: GUID)
    requires
        at + 16 <= buffer@.len(),
    ensures
        r == guid_at(buffer@, at as int),
{
    assert(at + 16 <= buffer.len());
    GUID {
        data1: bytes::read_u32(buffer, at),
        data2: bytes::read_u16(buffer, at + 4),
        data3: bytes::read_u16(buffer, at + 6),
        data4: read_u64_be(buffer, at + 8),
    }
}

/// The upper-case ASCII digit of `d`.
pub open spec fn hex_digit(d: int) -> u8 {
    if d < 10 {
        (0x30 + d) as u8
    } else {
        (0x37 + d) as u8
    }
}

/// The last `n` hexadecimal digits of `v`, upper case.
pub open spec fn hex_digits(v: int, n: nat) -> Seq<u8>
    decreases n,
{
    if n == 0 {
        Seq::empty()
    } else {
        hex_digits(v / 16, (n - 1) as nat).push(hex_digit(v % 16))
    }
}

/// The digits of an identifier in groups of 8-4-4-4-12, upper case.
pub open spec fn guid_ascii(g: GUID) -> Seq<u8> {
    hex_digits(g.data1 as int, 8) + seq![0x2du8] + hex_digits(g.data2 as int, 4) + seq![0x2du8]
        + hex_digits(g.data3 as int, 4) + seq![0x2du8] + hex_digits(
        g.data4 as int / 0x1_0000_0000_0000,
        4,
    ) + seq![0x2du8] + hex_digits(g.data4 as int % 0x1_0000_0000_0000, 12)
}

/// Whether `c` is a hexadecimal digit of either case.
pub open spec fn is_hex(c: char) -> bool {
    '0' <= c <= '9' || 'A' <= c <= 'F' || 'a' <= c <= 'f'
}

/// Value of the hexadecimal digit `c`.
pub open spec fn hex_value(c: char) -> int {
    if c <= '9' {
        c as int - '0' as int
    } else if c <= 'F' {
        c as int - 'A' as int + 10
    } else {
        c as int - 'a' as int + 10
    }
}

/// Value of a string of hexadecimal digits.
pub open spec fn hex_number(s: Seq<char>) -> int
    decreases s.len(),
{
    if s.len() == 0 {
        0
    } else {
        16 * hex_number(s.drop_last()) + hex_value(s.last())
    }
}

/// Whether `i` is the position of a hyphen in the text of an identifier.
pub open spec fn is_hyphen_position(i: int) -> bool {
    i == 8 || i == 13 || i == 18 || i == 23
}

/// Whether `s` is hexadecimal digits in groups of 8-4-4-4-12.
pub open spec fn is_guid_text(s: Seq<char>) -> bool {
    s.len() == 36 && forall|i: int|
        0 <= i < 36 ==> if is_hyphen_position(i) {
            #[trigger] s[i] == '-'
        } else {
            is_hex(s[i])
        }
}

/// The identifier a well-formed text stands for.
pub open spec fn guid_of_text(s: Seq<char>) -> GUID {
    GUID {
        data1: hex_number(s.subrange(0, 8)) as u32,
        data2: hex_number(s.subrange(9, 13)) as u16,
        data3: hex_number(s.subrange(14, 18)) as u16,
        data4: (hex_number(s.subrange(19, 23)) * 0x1_0000_0000_0000 + hex_number(
            s.subrange(24, 36),
        )) as u64,
    }
}

/// Sixteen to the power `n`.
spec fn pow16(n: nat) -> int
    decreases n,
{
    if n == 0 {
        1
    } else {
        16 * pow16((n - 1) as nat)
    }
}

/// The digits of a number are hexadecimal digits, and their number is the
/// number itself when they are enough to hold it.
proof fn hex_digits_denote(v: int, n: nat)
    requires
        0 <= v,
    ensures
        hex_digits(v, n).len() == n,
        forall|i: int|
            0 <= i < n ==> #[trigger] hex_digits(v, n)[i] < 0x80 && is_hex(
                hex_digits(v, n)[i] as char,
            ),
        v < pow16(n) ==> hex_number(text::ascii_chars(hex_digits(v, n))) == v,
    decreases n,
{
    if n > 0 {
        let rest = hex_digits(v / 16, (n - 1) as nat);
        hex_digits_denote(v / 16, (n - 1) as nat);
        let s = hex_digits(v, n);
        assert(text::ascii_chars(s).drop_last() =~= text::ascii_chars(rest));
        assert(text::ascii_chars(s).last() == hex_digit(v % 16) as char);
        assert(hex_value(hex_digit(v % 16) as char) == v % 16);
        assert forall|i: int| 0 <= i < n implies #[trigger] s[i] < 0x80 && is_hex(s[i] as char) by {
            if i < n - 1 {
                assert(s[i] == rest[i]);
            }
        }
    }
}

/// The text of an identifier stands for that identifier.
pub proof fn guid_text_round_trip(g: GUID)
    ensures
        is_guid_text(text::ascii_chars(guid_ascii(g))),
        guid_of_text(text::ascii_chars(guid_ascii(g))) == g,
        forall|i: int| 0 <= i < guid_ascii(g).len() ==> guid_ascii(g)[i] < 0x80,
{
    let high = g.data4 as int / 0x1_0000_0000_0000;
    let low = g.data4 as int % 0x1_0000_0000_0000;
    hex_digits_denote(g.data1 as int, 8);
    hex_digits_denote(g.data2 as int, 4);
    hex_digits_denote(g.data3 as int, 4);
    hex_digits_denote(high, 4);
    hex_digits_denote(low, 12);
    reveal_with_fuel(pow16, 13);
    let d1 = hex_digits(g.data1 as int, 8);
    let d2 = hex_digits(g.data2 as int, 4);
    let d3 = hex_digits(g.data3 as int, 4);
    let d4 = hex_digits(high, 4);
    let d5 = hex_digits(low, 12);
    let a = guid_ascii(g);
    let s = text::ascii_chars(a);
    assert(s.subrange(0, 8) =~= text::ascii_chars(d1));
    assert(s.subrange(9, 13) =~= text::ascii_chars(d2));
    assert(s.subrange(14, 18) =~= text::ascii_chars(d3));
    assert(s.subrange(19, 23) =~= text::ascii_chars(d4));
    assert(s.subrange(24, 36) =~= text::ascii_chars(d5));
    assert forall|i: int| 0 <= i < 36 implies a[i] < 0x80 && if is_hyphen_position(i) {
        #[trigger] s[i] == '-'
    } else {
        is_hex(s[i])
    } by {
        if i < 8 {
            assert(a[i] == d1[i]);
        } else if 8 < i < 13 {
            assert(a[i] == d2[i - 9]);
        } else if 13 < i < 18 {
            assert(a[i] == d3[i - 14]);
        } else if 18 < i < 23 {
            assert(a[i] == d4[i - 19]);
        } else if 23 < i {
            assert(a[i] == d5[i - 24]);
        }
    }
}

/// Appends the last `n` hexadecimal digits of `v`, upper case.
fn push_hex(out: &mut Vec<u8>, v: u64, n: usize)
    ensures
        final(out)@ == old(out)@ + hex_digits(v as int, n as nat),
    decreases n,
{
    if n > 0 {
        push_hex(out, v / 16, n - 1);
        let d: u8 = (v % 16) as u8;
        if d < 10 {
            out.push(0x30 + d);
        } else {
            out.push(0x37 + d);
        }
    }
}

/// The text of an identifier as ASCII: upper case and hyphenated.
pub fn guid_to_ascii_upper(guid: &GUID) -> (r: Vec<u8>)
    ensures
        r@ == guid_ascii(*guid),
{
    let mut out: Vec<u8> = Vec::new();
    push_hex(&mut out, guid.data1 as u64, 8);
    out.push(0x2d);
    push_hex(&mut out, guid.data2 as u64, 4);
    out.push(0x2d);
    push_hex(&mut out, guid.data3 as u64, 4);
    out.push(0x2d);
    push_hex(&mut out, guid.data4 / 0x1_0000_0000_0000, 4);
    out.push(0x2d);
    push_hex(&mut out, guid.data4 % 0x1_0000_0000_0000, 12);
    out
}

/// `windows_core::GUID::try_from` on text: 36 characters, hexadecimal digits of
/// either case in groups of 8-4-4-4-12 separated by hyphens, are accepted and
/// read most significant digit first; any other text is rejected.
#[verifier::external_body]
fn windows_guid_from_text(s: &str) -> (r: Option<GUID>)
    ensures
        r == (if is_guid_text(s@) {
            Some(guid_of_text(s@))
        } else {
            None
        }),
{
    match windows_core::GUID::try_from(s) {
        Ok(g) => Some(
            GUID {
                data1: g.data1,
                data2: g.data2,
                data3: g.data3,
                data4: u64::from_be_bytes(g.data4),
            },
        ),
        Err(_) => None,
    }
}

impl GUID {
    /// The identifier `s` stands for, if it is one.
    pub fn parse(s: &str) -> (r: Option<GUID>)
        ensures
            r == (if is_guid_text(s@) {
                Some(guid_of_text(s@))
            } else {
                None
            }),
    {
        windows_guid_from_text(s)
    }

    /// The upper-case, hyphenated text of the identifier.
    pub fn to_text(&self) -> (r: String)
        ensures
            r@ == text::ascii_chars(guid_ascii(*self)),
            is_guid_text(r@),
            guid_of_text(r@) == *self,
    {
        let ascii = guid_to_ascii_upper(self);
        proof {
            guid_text_round_trip(*self);
        }
        text::ascii_string(ascii.as_slice())
    }
}

/// The identifier whose 128-bit value is `v`.
#[verifier::opaque]
pub open spec fn guid_of_value(v: int) -> GUID {
    GUID {
        data1: (v / 0x1_0000_0000_0000_0000_0000_0000) as u32,
        data2: ((v / 0x1_0000_0000_0000_0000_0000) % 0x1_0000) as u16,
        data3: ((v / 0x1_0000_0000_0000_0000) % 0x1_0000) as u16,
        data4: (v % 0x1_0000_0000_0000_0000) as u64,
    }
}

/// The identifier made for a value has that value.
pub proof fn guid_of_value_has_the_value(v: u128)
    ensures
        guid_of_value(v as int).value() == v,
{
    reveal(guid_of_value);
}

fn guid_from_digits(value: u128) -> (r: GUID)
    ensures
        r == guid_of_value(value as int),
{
    reveal(guid_of_value);
    let data1: u128 = value / 0x1_0000_0000_0000_0000_0000_0000;
    let data2: u128 = (value / 0x1_0000_0000_0000_0000_0000) % 0x1_0000;
    let data3: u128 = (value / 0x1_0000_0000_0000_0000) % 0x1_0000;
    let data4: u128 = value % 0x1_0000_0000_0000_0000;
    GUID { data1: data1 as u32, data2: data2 as u16, data3: data3 as u16, data4: data4 as u64 }
}

/// The 16 bytes of an identifier in memory.
pub open spec fn guid_bytes(g: GUID) -> Seq<u8> {
    bytes::u32_bytes(g.data1) + bytes::u16_bytes(g.data2) + bytes::u16_bytes(g.data3)
        + u64_be_bytes(g.data4)
}

/// The eight bytes of `v`, most significant byte first.
pub open spec fn u64_be_bytes(v: u64) -> Seq<u8> {
    bytes::u64_bytes(v).reverse()
}

/// Appends the bytes of an identifier.
pub fn push_guid(out: &mut Vec<u8>, guid: &GUID)
    ensures
        final(out)@ == old(out)@ + guid_bytes(*guid),
{
    bytes::push_u32(out, guid.data1);
    bytes::push_u16(out, guid.data2);
    bytes::push_u16(out, guid.data3);
    let mut low_first: Vec<u8> = Vec::new();
    bytes::push_u64(&mut low_first, guid.data4);
    let ghost start = out@;
    let ghost reversed = u64_be_bytes(guid.data4);
    assert(low_first@ =~= bytes::u64_bytes(guid.data4));
    let mut i: usize = 0;
    while i < 8
        invariant
            i <= 8,
            low_first@.len() == 8,
            reversed == low_first@.reverse(),
            out@ == start + reversed.take(i as int),
        decreases 8 - i,
    {
        out.push(low_first[7 - i]);
        assert(reversed.take(i + 1) =~= reversed.take(i as int).push(reversed[i as int]));
        i += 1;
    }
    assert(reversed.take(8) =~= reversed);
    assert(out@ =~= old(out)@ + guid_bytes(*guid));
}

/// Reading an identifier where it was written gives it back.
pub proof fn guid_bytes_round_trip(before: Seq<u8>, g: GUID, after: Seq<u8>)
    ensures
        guid_bytes(g).len() == 16,
        guid_at(before + guid_bytes(g) + after, before.len() as int) == g,
{
    let s = before + guid_bytes(g) + after;
    let a = bytes::u32_bytes(g.data1);
    let b = bytes::u16_bytes(g.data2);
    let c = bytes::u16_bytes(g.data3);
    let d = u64_be_bytes(g.data4);
    bytes::u32_round_trip(before, g.data1, b + c + d + after);
    assert(s =~= before + a + (b + c + d + after));
    bytes::u16_round_trip(before + a, g.data2, c + d + after);
    assert(s =~= before + a + b + (c + d + after));
    bytes::u16_round_trip(before + a + b, g.data3, d + after);
    assert(s =~= before + a + b + c + (d + after));
    bytes::u64_round_trip(Seq::empty(), g.data4, Seq::empty());
    let e = bytes::u64_bytes(g.data4);
    assert(Seq::<u8>::empty() + e + Seq::<u8>::empty() =~= e);
    let at = before.len() as int + 8;
    assert(s[at + 0] == e[7]);
    assert(s[at + 1] == e[6]);
    assert(s[at + 2] == e[5]);
    assert(s[at + 3] == e[4]);
    assert(s[at + 4] == e[3]);
    assert(s[at + 5] == e[2]);
    assert(s[at + 6] == e[1]);
    assert(s[at + 7] == e[0]);
}

/// What is read at a place does not depend on what stands elsewhere.
pub proof fn guid_depends_on_its_bytes(s: Seq<u8>, t: Seq<u8>, at: int)
    requires
        0 <= at <= t.len() - 16,
        t.len() <= s.len(),
        forall|i: int| 0 <= i < t.len() ==> s[i] == t[i],
    ensures
        guid_at(s, at) == guid_at(t, at),
{
}

/// The value of an identifier fits 128 bits.
pub proof fn guid_values_fit(g: GUID)
    ensures
        0 <= g.value() <= u128::MAX,
{
}

/// The big-endian number stored in eight bytes is the one whose digits stand there,
/// the most significant one first.
pub proof fn big_endian_u64_is_stored(s: Seq<u8>, at: int)
    requires
        0 <= at,
        at + 8 <= s.len(),
    ensures
        u64_be_at(s, at) == bytes::big_endian(s.subrange(at, at + 8)),
{
    reveal_with_fuel(bytes::big_endian, 9);
    let d = s.subrange(at, at + 8);
    let d7 = d.drop_last();
    let d6 = d7.drop_last();
    let d5 = d6.drop_last();
    let d4 = d5.drop_last();
    let d3 = d4.drop_last();
    let d2 = d3.drop_last();
    let d1 = d2.drop_last();
    assert(d7 =~= s.subrange(at, at + 7));
    assert(d6 =~= s.subrange(at, at + 6));
    assert(d5 =~= s.subrange(at, at + 5));
    assert(d4 =~= s.subrange(at, at + 4));
    assert(d3 =~= s.subrange(at, at + 3));
    assert(d2 =~= s.subrange(at, at + 2));
    assert(d1 =~= s.subrange(at, at + 1));
    assert(d1.drop_last() =~= Seq::empty());
}

/// In memory, the first three fields of an identifier are little-endian numbers,
/// and the remaining eight bytes are its last sixteen digits in reading order.
pub proof fn stored_fields(s: Seq<u8>, at: int)
    requires
        0 <= at,
        at + 16 <= s.len(),
    ensures
        guid_at(s, at).data1 == bytes::little_endian(s.subrange(at, at + 4)),
        guid_at(s, at).data2 == bytes::little_endian(s.subrange(at + 4, at + 6)),
        guid_at(s, at).data3 == bytes::little_endian(s.subrange(at + 6, at + 8)),
        guid_at(s, at).data4 == bytes::big_endian(s.subrange(at + 8, at + 16)),
{
    bytes::stored_numbers_are_little_endian(s, at);
    bytes::stored_numbers_are_little_endian(s, at + 4);
    bytes::stored_numbers_are_little_endian(s, at + 6);
    big_endian_u64_is_stored(s, at + 8);
}

/// The fields of an identifier are the digits of its number, the first field the
/// most significant ones.
pub proof fn fields_of_a_number(v: u128)
    ensures
        ({
            let g = guid_of_value(v as int);
            &&& g.data1 == v / 0x1_0000_0000_0000_0000_0000_0000
            &&& g.data2 == v / 0x1_0000_0000_0000_0000_0000 % 0x1_0000
            &&& g.data3 == v / 0x1_0000_0000_0000_0000 % 0x1_0000
            &&& g.data4 == v % 0x1_0000_0000_0000_0000
        }),
{
    reveal(guid_of_value);
}

/// The text of an identifier is upper case: the digits before each hyphen are
/// those of one field, the most significant one first, so two identifiers with the
/// same text are the same.
pub proof fn texts_are_distinct_and_upper_case(a: GUID, b: GUID)
    ensures
        guid_ascii(a) == guid_ascii(b) ==> a == b,
        guid_ascii(a).len() == 36,
        forall|i: int|
            0 <= i < 36 ==> {
                let c = #[trigger] guid_ascii(a)[i];
                if i == 8 || i == 13 || i == 18 || i == 23 {
                    c == 0x2d
                } else {
                    0x30 <= c <= 0x39 || 0x41 <= c <= 0x46
                }
            },
{
    guid_text_round_trip(a);
    guid_text_round_trip(b);
    let high = a.data4 as int / 0x1_0000_0000_0000;
    let low = a.data4 as int % 0x1_0000_0000_0000;
    digits_are_upper_case(a.data1 as int, 8);
    digits_are_upper_case(a.data2 as int, 4);
    digits_are_upper_case(a.data3 as int, 4);
    digits_are_upper_case(high, 4);
    digits_are_upper_case(low, 12);
    let d1 = hex_digits(a.data1 as int, 8);
    let d2 = hex_digits(a.data2 as int, 4);
    let d3 = hex_digits(a.data3 as int, 4);
    let d4 = hex_digits(high, 4);
    let d5 = hex_digits(low, 12);
    let s = guid_ascii(a);
    assert(s.len() == 36);
    assert forall|i: int| 0 <= i < 36 implies {
        let c = #[trigger] s[i];
        if i == 8 || i == 13 || i == 18 || i == 23 {
            c == 0x2d
        } else {
            0x30 <= c <= 0x39 || 0x41 <= c <= 0x46
        }
    } by {
        if i < 8 {
            assert(s[i] == d1[i]);
        } else if 8 < i < 13 {
            assert(s[i] == d2[i - 9]);
        } else if 13 < i < 18 {
            assert(s[i] == d3[i - 14]);
        } else if 18 < i < 23 {
            assert(s[i] == d4[i - 19]);
        } else if 23 < i {
            assert(s[i] == d5[i - 24]);
        }
    }
}

proof fn digits_are_upper_case(v: int, n: nat)
    requires
        0 <= v,
    ensures
        hex_digits(v, n).len() == n,
        forall|i: int|
            0 <= i < n ==> {
                let c = #[trigger] hex_digits(v, n)[i];
                0x30 <= c <= 0x39 || 0x41 <= c <= 0x46
            },
    decreases n,
{
    if n > 0 {
        digits_are_upper_case(v / 16, (n - 1) as nat);
        assert forall|i: int| 0 <= i < n implies {
            let c = #[trigger] hex_digits(v, n)[i];
            0x30 <= c <= 0x39 || 0x41 <= c <= 0x46
        } by {
            if i < n - 1 {
                assert(hex_digits(v, n)[i] == hex_digits(v / 16, (n - 1) as nat)[i]);
            }
        }
    }
}

/// What a hexadecimal digit stands for, in either case.
pub proof fn digits_stand_for_their_value(c: char)
    ensures
        '0' <= c <= '9' ==> is_hex(c) && hex_value(c) == c as int - 0x30,
        'A' <= c <= 'F' ==> is_hex(c) && hex_value(c) == c as int - 0x41 + 10,
        'a' <= c <= 'f' ==> is_hex(c) && hex_value(c) == c as int - 0x61 + 10,
        is_hex(c) ==> 0 <= hex_value(c) < 16,
{
}

proof fn numbers_of_joined_digits(a: Seq<char>, b: Seq<char>, power: int)
    requires
        power == pow16(b.len()),
    ensures
        hex_number(a + b) == hex_number(a) * power + hex_number(b),
    decreases b.len(),
{
    if b.len() == 0 {
        assert(a + b =~= a);
    } else {
        let rest = b.drop_last();
        assert((a + b).drop_last() =~= a + rest);
        let x = hex_number(a);
        let p = pow16(rest.len());
        numbers_of_joined_digits(a, rest, p);
        assert(16 * (x * p) == x * (16 * p)) by (nonlinear_arith);
    }
}

proof fn numbers_of_digits_are_bounded(s: Seq<char>)
    requires
        forall|i: int| 0 <= i < s.len() ==> is_hex(#[trigger] s[i]),
    ensures
        0 <= hex_number(s) < pow16(s.len()),
    decreases s.len(),
{
    if s.len() > 0 {
        let rest = s.drop_last();
        assert forall|i: int| 0 <= i < rest.len() implies is_hex(#[trigger] rest[i]) by {
            assert(rest[i] == s[i]);
        }
        numbers_of_digits_are_bounded(rest);
        assert(is_hex(s[s.len() - 1]));
        digits_stand_for_their_value(s.last());
    }
}

/// The text of an identifier writes its number: the hexadecimal number of all the
/// digits in the text, in reading order, the hyphens left out.
pub proof fn texts_write_the_number(s: Seq<char>)
    requires
        is_guid_text(s),
    ensures
        guid_of_text(s).value() == hex_number(
            s.subrange(0, 8) + s.subrange(9, 13) + s.subrange(14, 18) + s.subrange(19, 23)
                + s.subrange(24, 36),
        ),
{
    let a = s.subrange(0, 8);
    let b = s.subrange(9, 13);
    let c = s.subrange(14, 18);
    let d = s.subrange(19, 23);
    let e = s.subrange(24, 36);
    assert(pow16(4) == 0x1_0000 && pow16(8) == 0x1_0000_0000 && pow16(12) == 0x1_0000_0000_0000)
        by {
        reveal_with_fuel(pow16, 13);
    }
    numbers_of_joined_digits(a, b, 0x1_0000);
    numbers_of_joined_digits(a + b, c, 0x1_0000);
    numbers_of_joined_digits(a + b + c, d, 0x1_0000);
    numbers_of_joined_digits(a + b + c + d, e, 0x1_0000_0000_0000);
    numbers_of_digits_are_bounded(a);
    numbers_of_digits_are_bounded(b);
    numbers_of_digits_are_bounded(c);
    numbers_of_digits_are_bounded(d);
    numbers_of_digits_are_bounded(e);
}

} // verus!
