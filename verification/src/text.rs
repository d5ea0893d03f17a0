//! Text inside event data: UTF-16 and 8-bit strings, with or without terminator.
use vstd::prelude::*;
use vstd::utf8::*;

use crate::bytes;

verus! {

/// The error of `std::str::from_utf8`.
#[verifier::external_type_specification]
#[verifier::external_body]
pub struct ExUtf8Error(std::str::Utf8Error);

/// `std::str::from_utf8` accepts exactly the well-formed UTF-8 byte sequences
/// and yields the characters they encode. What the error holds is not stated.
pub assume_specification<'a>[ std::str::from_utf8 ](v: &'a [u8]) -> (r: Result<
    &'a str,
    std::str::Utf8Error,
>)
    ensures
        match r {
            Ok(s) => valid_utf8(v@) && s@ == decode_utf8(v@),
            Err(_) => !valid_utf8(v@),
        },
;

/// `memchr::memchr` returns the index of the first occurrence of `needle`, or
/// `None` when there is none.
pub assume_specification[ memchr::memchr ](needle: u8, haystack: &[u8]) -> (r: Option<usize>)
    ensures
        match r {
            Some(i) => {
                &&& i < haystack@.len()
                &&& haystack@[i as int] == needle
                &&& forall|j: int| 0 <= j < i ==> haystack@[j] != needle
            },
            None => forall|j: int| 0 <= j < haystack@.len() ==> haystack@[j] != needle,
        },
;

/// What replaces an unpaired surrogate.
pub open spec fn replacement_char() -> char {
    '\u{FFFD}'
}

/// Whether `unit` is one half of a surrogate pair.
pub open spec fn is_surrogate(unit: u16) -> bool {
    0xd800 <= unit <= 0xdfff
}

/// Whether `units` starts with a surrogate pair.
pub open spec fn starts_with_pair(units: Seq<u16>) -> bool {
    units.len() > 1 && 0xd800 <= units[0] <= 0xdbff && 0xdc00 <= units[1] <= 0xdfff
}

/// The characters of a UTF-16 string, unpaired surrogates being replaced by
/// U+FFFD.
pub open spec fn utf16_chars(units: Seq<u16>) -> Seq<char>
    decreases units.len(),
{
    if units.len() == 0 {
        Seq::empty()
    } else if starts_with_pair(units) {
        seq![(0x1_0000 + 0x400 * (units[0] - 0xd800) + (units[1] - 0xdc00)) as char] + utf16_chars(
            units.skip(2),
        )
    } else if is_surrogate(units[0]) {
        seq![replacement_char()] + utf16_chars(units.skip(1))
    } else {
        seq![units[0] as char] + utf16_chars(units.skip(1))
    }
}

/// The UTF-16 code units of one character.
pub open spec fn char_units(c: char) -> Seq<u16> {
    if (c as int) < 0x1_0000 {
        seq![c as u16]
    } else {
        seq![
            (0xd800 + (c as int - 0x1_0000) / 0x400) as u16,
            (0xdc00 + (c as int - 0x1_0000) % 0x400) as u16,
        ]
    }
}

/// The UTF-16 code units of a string.
pub open spec fn utf16_units(chars: Seq<char>) -> Seq<u16>
    decreases chars.len(),
{
    if chars.len() == 0 {
        Seq::empty()
    } else {
        utf16_units(chars.drop_last()) + char_units(chars.last())
    }
}

/// A character is a Unicode scalar value: no surrogate, no more than 0x10FFFF.
proof fn char_bounds(c: char)
    ensures
        (c as int) < 0xd800 || 0xe000 <= (c as int) <= 0x10_ffff,
        c as u32 == c as int,
{
}

/// Encoding is compatible with concatenation.
pub proof fn utf16_units_concat(a: Seq<char>, b: Seq<char>)
    ensures
        utf16_units(a + b) == utf16_units(a) + utf16_units(b),
    decreases b.len(),
{
    if b.len() == 0 {
        assert(a + b =~= a);
        assert(utf16_units(a) + utf16_units(b) =~= utf16_units(a));
    } else {
        assert((a + b).drop_last() =~= a + b.drop_last());
        assert((a + b).last() == b.last());
        utf16_units_concat(a, b.drop_last());
        assert(utf16_units(a + b) =~= utf16_units(a) + utf16_units(b));
    }
}

/// Decoding the UTF-16 encoding of a string gives the string back.
pub proof fn utf16_round_trip(chars: Seq<char>)
    ensures
        utf16_chars(utf16_units(chars)) == chars,
    decreases chars.len(),
{
    if chars.len() > 0 {
        let c = chars[0];
        let rest = chars.skip(1);
        assert(chars =~= seq![c] + rest);
        utf16_units_concat(seq![c], rest);
        assert(utf16_units(seq![c]) =~= char_units(c)) by {
            reveal_with_fuel(utf16_units, 2);
        }
        let units = utf16_units(chars);
        utf16_round_trip(rest);
        char_bounds(c);
        if (c as int) < 0x1_0000 {
            assert(units.skip(1) =~= utf16_units(rest));
        } else {
            assert(units.skip(2) =~= utf16_units(rest));
        }
        assert(utf16_chars(units) =~= chars);
    }
}

/// Decodes UTF-16 with `widestring::decode_utf16_lossy`: unpaired surrogates
/// come out as U+FFFD, everything else as the character it encodes.
#[verifier::external_body]
pub(crate) fn decode_utf16_lossy(units: &[u16]) -> (r: String)
    ensures
        r@ == utf16_chars(units@),
{
    widestring::decode_utf16_lossy(units.iter().copied()).collect()
}

/// What `String::from_utf8_lossy` makes of `bytes`.
pub uninterp spec fn utf8_lossy_chars(bytes: Seq<u8>) -> Seq<char>;

/// The characters of UTF-8 text. Where the replacement characters go in text that
/// is not well-formed is what `String::from_utf8_lossy` makes of it.
pub open spec fn lossy_chars(bytes: Seq<u8>) -> Seq<char> {
    if valid_utf8(bytes) {
        decode_utf8(bytes)
    } else {
        utf8_lossy_chars(bytes)
    }
}

/// Decodes bytes with `String::from_utf8_lossy`. Well-formed UTF-8 comes out as
/// the characters it encodes; where the replacement characters go in an
/// ill-formed sequence is left to the name.
#[verifier::external_body]
pub(crate) fn decode_utf8_lossy(bytes: &[u8]) -> (r: String)
    ensures
        r@ == utf8_lossy_chars(bytes@),
        valid_utf8(bytes@) ==> r@ == decode_utf8(bytes@),
{
    String::from_utf8_lossy(bytes).into_owned()
}

/// `s` without its leading and trailing NULs.
pub open spec fn trim_nuls(s: Seq<char>) -> Seq<char>
    decreases s.len(),
{
    if s.len() > 0 && s[0] == '\0' {
        trim_nuls(s.drop_first())
    } else if s.len() > 0 && s.last() == '\0' {
        trim_nuls(s.drop_last())
    } else {
        s
    }
}

/// `str::trim_matches` with the NUL character: removes every leading and
/// trailing NUL.
#[verifier::external_body]
pub(crate) fn trim_nul_chars(s: &str) -> (r: &str)
    ensures
        r@ == trim_nuls(s@),
{
    s.trim_matches('\0')
}

/// The UTF-16 code units of a packed wide string; a trailing odd byte is a
/// truncated code unit and is dropped.
pub open spec fn units_of(bytes: Seq<u8>) -> Seq<u16> {
    Seq::new((bytes.len() / 2) as nat, |i: int| bytes::u16_at(bytes, 2 * i))
}

/// Index of the first `x` in `s`, or the length of `s` when there is none.
pub open spec fn first_index<A>(s: Seq<A>, x: A) -> nat
    decreases s.len(),
{
    if s.len() == 0 || s[0] == x {
        0
    } else {
        1 + first_index(s.drop_first(), x)
    }
}

/// The code units before the first NUL.
pub open spec fn until_nul(units: Seq<u16>) -> Seq<u16> {
    units.take(first_index(units, 0) as int)
}

/// `first_index` is the only index with no `x` before it that is the end of the
/// sequence or holds an `x`.
pub proof fn first_index_is<A>(s: Seq<A>, x: A, n: int)
    requires
        0 <= n <= s.len(),
        forall|i: int| 0 <= i < n ==> s[i] != x,
        n < s.len() ==> s[n] == x,
    ensures
        first_index(s, x) == n,
    decreases s.len(),
{
    if n > 0 {
        let rest = s.drop_first();
        assert forall|i: int| 0 <= i < n - 1 implies rest[i] != x by {
            assert(rest[i] == s[i + 1]);
        }
        first_index_is(rest, x, n - 1);
    }
}

/// What `first_index` is.
pub proof fn first_index_properties<A>(s: Seq<A>, x: A)
    ensures
        first_index(s, x) <= s.len(),
        forall|i: int| 0 <= i < first_index(s, x) ==> s[i] != x,
        first_index(s, x) < s.len() ==> s[first_index(s, x) as int] == x,
    decreases s.len(),
{
    if s.len() > 0 && s[0] != x {
        let rest = s.drop_first();
        first_index_properties(rest, x);
        assert forall|i: int| 0 <= i < first_index(s, x) implies s[i] != x by {
            if i > 0 {
                assert(s[i] == rest[i - 1]);
            }
        }
    }
}

/// Splits packed wide data into code units.
pub fn code_units(bytes: &[u8]) -> (r: Vec<u16>)
    ensures
        r@ == units_of(bytes@),
{
    let mut r: Vec<u16> = Vec::new();
    let n: usize = bytes.len() / 2;
    let mut i: usize = 0;
    while i < n
        invariant
            n == bytes@.len() / 2,
            i <= n,
            r@ == units_of(bytes@).take(i as int),
        decreases n - i,
    {
        assert(2 * i + 2 <= bytes.len());
        r.push(bytes::read_u16(bytes, 2 * i));
        i = i + 1;
        assert(r@ =~= units_of(bytes@).take(i as int));
    }
    assert(units_of(bytes@).take(n as int) =~= units_of(bytes@));
    r
}

/// The code units of packed wide data up to, and without, the first NUL.
pub fn code_units_until_nul(bytes: &[u8]) -> (r: Vec<u16>)
    ensures
        r@ == until_nul(units_of(bytes@)),
{
    let ghost all = units_of(bytes@);
    let mut r: Vec<u16> = Vec::new();
    let n: usize = bytes.len() / 2;
    let mut i: usize = 0;
    while i < n
        invariant
            n == bytes@.len() / 2,
            all == units_of(bytes@),
            i <= n,
            r@ == all.take(i as int),
            forall|j: int| 0 <= j < i ==> all[j] != 0,
        decreases n - i,
    {
        assert(2 * i + 2 <= bytes.len());
        let unit: u16 = bytes::read_u16(bytes, 2 * i);
        if unit == 0 {
            proof {
                first_index_is(all, 0, i as int);
            }
            return r;
        }
        r.push(unit);
        i = i + 1;
        assert(r@ =~= all.take(i as int));
    }
    proof {
        first_index_is(all, 0, n as int);
    }
    r
}

/// The UTF-16 code units of a string.
pub fn encode_utf16(s: &str) -> (r: Vec<u16>)
    ensures
        r@ == utf16_units(s@),
{
    let mut r: Vec<u16> = Vec::new();
    for c in it: s.chars()
        invariant
            it.seq() == s@,
            r@ == utf16_units(s@.take(it.index() as int)),
    {
        let ghost done = s@.take(it.index() as int);
        assert(s@.take(it.index() + 1) =~= done.push(c));
        assert(done.push(c).drop_last() =~= done);
        let v: u32 = c as u32;
        proof {
            char_bounds(c);
        }
        if v < 0x1_0000 {
            r.push(v as u16);
        } else {
            r.push((0xd800 + (v - 0x1_0000) / 0x400) as u16);
            r.push((0xdc00 + (v - 0x1_0000) % 0x400) as u16);
        }
        assert(r@ =~= utf16_units(s@.take(it.index() + 1)));
    }
    assert(s@.take(s@.len() as int) =~= s@);
    r
}

/// The characters of an ASCII byte string.
pub open spec fn ascii_chars(bytes: Seq<u8>) -> Seq<char> {
    Seq::new(bytes.len(), |i: int| bytes[i] as char)
}

/// An ASCII byte string is well-formed UTF-8 for the same characters.
pub proof fn ascii_is_utf8(bytes: Seq<u8>)
    requires
        forall|i: int| 0 <= i < bytes.len() ==> bytes[i] < 0x80,
    ensures
        valid_utf8(bytes),
        decode_utf8(bytes) == ascii_chars(bytes),
{
    let chars = ascii_chars(bytes);
    assert(is_ascii_chars(chars));
    is_ascii_chars_encode_utf8(chars);
    assert(encode_utf8(chars) =~= bytes);
    encode_utf8_valid_utf8(chars);
    encode_utf8_decode_utf8(chars);
}

/// The text of an ASCII byte string.
pub fn ascii_string(bytes: &[u8]) -> (r: String)
    requires
        forall|i: int| 0 <= i < bytes@.len() ==> bytes@[i] < 0x80,
    ensures
        r@ == ascii_chars(bytes@),
{
    proof {
        ascii_is_utf8(bytes@);
    }
    match std::str::from_utf8(bytes) {
        Ok(s) => s.to_owned(),
        Err(_) => String::new(),
    }
}

/// Whether two strings are the same text.
pub fn same_text(a: &str, b: &str) -> (r: bool)
    ensures
        r == (a@ == b@),
{
    let x = a.as_bytes();
    let y = b.as_bytes();
    if x.len() != y.len() {
        return false;
    }
    let mut i: usize = 0;
    while i < x.len()
        invariant
            i <= x@.len(),
            x@.len() == y@.len(),
            x@ == encode_utf8(a@),
            y@ == encode_utf8(b@),
            x@.take(i as int) == y@.take(i as int),
        decreases x@.len() - i,
    {
        if x[i] != y[i] {
            return false;
        }
        assert(x@.take(i + 1) =~= x@.take(i as int).push(x@[i as int]));
        assert(y@.take(i + 1) =~= y@.take(i as int).push(y@[i as int]));
        i = i + 1;
    }
    proof {
        assert(x@.take(i as int) =~= x@);
        assert(y@.take(i as int) =~= y@);
        encode_utf8_decode_utf8(a@);
        encode_utf8_decode_utf8(b@);
    }
    true
}

/// Whether a string holds a character.
pub fn contains_char(s: &str, wanted: char) -> (r: bool)
    ensures
        r == s@.contains(wanted),
{
    for c in it: s.chars()
        invariant
            it.seq() == s@,
            forall|j: int| 0 <= j < it.index() ==> s@[j] != wanted,
    {
        if c == wanted {
            assert(s@[it.index() as int] == wanted);
            return true;
        }
    }
    false
}

/// Appends all of `units`.
pub fn push_units(out: &mut Vec<u16>, units: &[u16])
    ensures
        final(out)@ == old(out)@ + units@,
{
    let mut i: usize = 0;
    while i < units.len()
        invariant
            i <= units@.len(),
            out@ == old(out)@ + units@.take(i as int),
        decreases units@.len() - i,
    {
        out.push(units[i]);
        assert(units@.take(i + 1) =~= units@.take(i as int).push(units@[i as int]));
        i = i + 1;
    }
    assert(units@.take(i as int) =~= units@);
}

/// A string that is not empty takes at least one byte.
pub proof fn encoding_is_not_empty(chars: Seq<char>)
    requires
        chars.len() > 0,
    ensures
        encode_utf8(chars).len() > 0,
{
    encode_utf8_first_scalar(chars);
}

/// `widestring::U16CString::from_str_truncate`, then `into_vec`: the UTF-16 code
/// units of the string, up to the first NUL.
#[verifier::external_body]
pub(crate) fn wide_c_string_truncated(s: &str) -> (r: Vec<u16>)
    ensures
        r@ == until_nul(utf16_units(s@)),
{
    widestring::U16CString::from_str_truncate(s).into_vec()
}

/// `widestring::U16CString::from_vec_truncate`, then `into_vec`: the code units up
/// to the first NUL.
#[verifier::external_body]
pub(crate) fn wide_c_string_from_units(units: Vec<u16>) -> (r: Vec<u16>)
    ensures
        r@ == until_nul(units@),
{
    widestring::U16CString::from_vec_truncate(units).into_vec()
}

/// `widestring::U16CString::from_str`, then `into_vec`: the UTF-16 code units of
/// the string up to its first NUL, provided that nothing follows a NUL.
#[verifier::external_body]
pub(crate) fn wide_c_string(s: &str) -> (r: Option<Vec<u16>>)
    ensures
        match r {
            Some(units) => is_c_string(utf16_units(s@)) && units@ == until_nul(utf16_units(s@)),
            None => !is_c_string(utf16_units(s@)),
        },
{
    match widestring::U16CString::from_str(s) {
        Ok(wide) => Some(wide.into_vec()),
        Err(_) => None,
    }
}

/// `widestring::U16CStr::from_slice_truncate`: the code units before the first
/// NUL, provided that there is a NUL.
#[verifier::external_body]
pub(crate) fn c_string_units(buffer: &[u16]) -> (r: Option<Vec<u16>>)
    ensures
        match r {
            Some(units) => buffer@.contains(0) && units@ == until_nul(buffer@),
            None => !buffer@.contains(0),
        },
{
    match widestring::U16CStr::from_slice_truncate(buffer) {
        Ok(wide) => Some(wide.as_slice().to_vec()),
        Err(_) => None,
    }
}

/// Whether nothing follows the first NUL, if there is one.
pub open spec fn is_c_string(units: Seq<u16>) -> bool {
    first_index(units, 0) + 1 >= units.len()
}

/// The decimal digits of a number.
pub open spec fn decimal_ascii(v: nat) -> Seq<u8>
    decreases v,
{
    if v < 10 {
        seq![(0x30 + v) as u8]
    } else {
        decimal_ascii(v / 10).push((0x30 + v % 10) as u8)
    }
}

/// The hexadecimal digits of a number, in lower case.
pub open spec fn hex_ascii(v: nat) -> Seq<u8>
    decreases v,
{
    let digit = (if v % 16 < 10 {
        0x30 + v % 16
    } else {
        0x57 + v % 16
    }) as u8;
    if v < 16 {
        seq![digit]
    } else {
        hex_ascii(v / 16).push(digit)
    }
}

fn push_decimal(out: &mut Vec<u8>, v: u64)
    requires
        forall|i: int| 0 <= i < old(out)@.len() ==> old(out)@[i] < 0x80,
    ensures
        final(out)@ == old(out)@ + decimal_ascii(v as nat),
        forall|i: int| 0 <= i < final(out)@.len() ==> final(out)@[i] < 0x80,
    decreases v,
{
    if v >= 10 {
        push_decimal(out, v / 10);
    }
    out.push(0x30 + (v % 10) as u8);
    assert(out@ =~= old(out)@ + decimal_ascii(v as nat));
}

fn push_lower_hex(out: &mut Vec<u8>, v: u64)
    requires
        forall|i: int| 0 <= i < old(out)@.len() ==> old(out)@[i] < 0x80,
    ensures
        final(out)@ == old(out)@ + hex_ascii(v as nat),
        forall|i: int| 0 <= i < final(out)@.len() ==> final(out)@[i] < 0x80,
    decreases v,
{
    if v >= 16 {
        push_lower_hex(out, v / 16);
    }
    let d: u8 = (v % 16) as u8;
    if d < 10 {
        out.push(0x30 + d);
    } else {
        out.push(0x57 + d);
    }
    assert(out@ =~= old(out)@ + hex_ascii(v as nat));
}

/// A number in decimal.
pub fn decimal_text(v: u64) -> (r: String)
    ensures
        r@ == ascii_chars(decimal_ascii(v as nat)),
{
    let mut out: Vec<u8> = Vec::new();
    push_decimal(&mut out, v);
    assert(out@ =~= decimal_ascii(v as nat));
    ascii_string(out.as_slice())
}

/// A number in hexadecimal, after `0x`.
pub fn hex_text(v: u64) -> (r: String)
    ensures
        r@ == ascii_chars(seq![0x30u8, 0x78] + hex_ascii(v as nat)),
{
    let mut out: Vec<u8> = Vec::new();
    out.push(0x30);
    out.push(0x78);
    push_lower_hex(&mut out, v);
    assert(out@ =~= seq![0x30u8, 0x78] + hex_ascii(v as nat));
    ascii_string(out.as_slice())
}

/// Text without a NUL has no NUL code unit.
pub proof fn no_nul_units(chars: Seq<char>)
    requires
        !chars.contains('\0'),
    ensures
        forall|i: int| 0 <= i < utf16_units(chars).len() ==> utf16_units(chars)[i] != 0,
    decreases chars.len(),
{
    if chars.len() > 0 {
        let rest = chars.drop_last();
        assert forall|i: int| 0 <= i < rest.len() implies rest[i] != '\0' by {
            assert(rest[i] == chars[i]);
        }
        no_nul_units(rest);
        let c = chars.last();
        char_bounds(c);
        assert(c != '\0' && c as int != 0);
        let last = char_units(c);
        if (c as int) < 0x1_0000 {
            assert(last[0] == c as int);
        }
        assert forall|i: int| 0 <= i < utf16_units(chars).len() implies utf16_units(chars)[i]
            != 0 by {
            let n = utf16_units(rest).len();
            if i >= n {
                assert(utf16_units(chars)[i] == last[i - n]);
            } else {
                assert(utf16_units(chars)[i] == utf16_units(rest)[i]);
            }
        }
    }
}

/// Whether a character has the Unicode property `White_Space`.
pub open spec fn is_white_space(c: char) -> bool {
    let v = c as int;
    ||| 0x9 <= v <= 0xd
    ||| v == 0x20
    ||| v == 0x85
    ||| v == 0xa0
    ||| v == 0x1680
    ||| 0x2000 <= v <= 0x200a
    ||| v == 0x2028
    ||| v == 0x2029
    ||| v == 0x202f
    ||| v == 0x205f
    ||| v == 0x3000
}

/// `s` without its leading and trailing white space.
pub open spec fn trimmed(s: Seq<char>) -> Seq<char>
    decreases s.len(),
{
    if s.len() > 0 && is_white_space(s[0]) {
        trimmed(s.drop_first())
    } else if s.len() > 0 && is_white_space(s.last()) {
        trimmed(s.drop_last())
    } else {
        s
    }
}

/// `str::trim`: removes every leading and trailing character with the Unicode
/// property `White_Space`.
#[verifier::external_body]
pub(crate) fn trim_white_space(s: &str) -> (r: &str)
    ensures
        r@ == trimmed(s@),
{
    s.trim()
}

/// The number that decimal digits write.
pub open spec fn decimal_value(digits: Seq<u8>) -> int
    decreases digits.len(),
{
    if digits.len() == 0 {
        0
    } else {
        decimal_value(digits.drop_last()) * 10 + (digits.last() - 0x30)
    }
}

/// The number that hexadecimal digits write.
pub open spec fn hex_value(digits: Seq<u8>) -> int
    decreases digits.len(),
{
    if digits.len() == 0 {
        0
    } else {
        hex_value(digits.drop_last()) * 16 + if digits.last() >= 0x61 {
            digits.last() - 0x61 + 10
        } else {
            digits.last() - 0x30
        }
    }
}

/// Decimal digits write their number, without superfluous zeros.
pub proof fn decimal_digits_write_their_number(v: nat)
    ensures
        decimal_value(decimal_ascii(v)) == v,
        decimal_ascii(v).len() > 0,
        forall|i: int|
            0 <= i < decimal_ascii(v).len() ==> 0x30 <= #[trigger] decimal_ascii(v)[i] <= 0x39,
        decimal_ascii(v)[0] == 0x30 <==> v == 0,
    decreases v,
{
    let digits = decimal_ascii(v);
    if v < 10 {
        assert(digits.drop_last() =~= Seq::<u8>::empty());
        assert(decimal_value(Seq::<u8>::empty()) == 0);
    } else {
        decimal_digits_write_their_number(v / 10);
        assert(digits.drop_last() =~= decimal_ascii(v / 10));
    }
}

/// Hexadecimal digits write their number, in lower case and without superfluous
/// zeros.
pub proof fn hex_digits_write_their_number(v: nat)
    ensures
        hex_value(hex_ascii(v)) == v,
        hex_ascii(v).len() > 0,
        forall|i: int|
            0 <= i < hex_ascii(v).len() ==> 0x30 <= #[trigger] hex_ascii(v)[i] <= 0x39 || 0x61
                <= hex_ascii(v)[i] <= 0x66,
        hex_ascii(v)[0] == 0x30 <==> v == 0,
    decreases v,
{
    let digits = hex_ascii(v);
    if v < 16 {
        assert(digits.drop_last() =~= Seq::<u8>::empty());
        assert(hex_value(Seq::<u8>::empty()) == 0);
    } else {
        hex_digits_write_their_number(v / 16);
        assert(digits.drop_last() =~= hex_ascii(v / 16));
    }
}

/// What is left of `s` between `from` and `to` when white space characters are cut at its ends.
pub open spec fn trimmed_cut(s: Seq<char>, from: int, to: int) -> bool {
    &&& 0 <= from <= to <= s.len()
    &&& forall|i: int| 0 <= i < from ==> is_white_space(#[trigger] s[i])
    &&& forall|i: int| to <= i < s.len() ==> is_white_space(#[trigger] s[i])
}

proof fn trimmed_bounds(s: Seq<char>) -> (r: (int, int))
    ensures
        trimmed_cut(s, r.0, r.1),
        trimmed(s) == s.subrange(r.0, r.1),
        r.0 < r.1 ==> !(is_white_space(s[r.0])) && !(is_white_space(s[r.1 - 1])),
    decreases s.len(),
{
    if s.len() > 0 && is_white_space(s[0]) {
        let rest = s.drop_first();
        let (from, to) = trimmed_bounds(rest);
        assert(s.subrange(from + 1, to + 1) =~= rest.subrange(from, to));
        assert forall|i: int| 0 <= i < from + 1 implies is_white_space(#[trigger] s[i]) by {
            if i > 0 {
                assert(rest[i - 1] == s[i]);
            }
        }
        assert forall|i: int| to + 1 <= i < s.len() implies is_white_space(#[trigger] s[i]) by {
            assert(rest[i - 1] == s[i]);
        }
        (from + 1, to + 1)
    } else if s.len() > 0 && is_white_space(s.last()) {
        let rest = s.drop_last();
        let (from, to) = trimmed_bounds(rest);
        assert(s.subrange(from, to) =~= rest.subrange(from, to));
        assert forall|i: int| 0 <= i < from implies is_white_space(#[trigger] s[i]) by {
            assert(rest[i] == s[i]);
        }
        assert forall|i: int| to <= i < s.len() implies is_white_space(#[trigger] s[i]) by {
            if i < rest.len() {
                assert(rest[i] == s[i]);
            }
        }
        (from, to)
    } else {
        assert(s.subrange(0, s.len() as int) =~= s);
        (0, s.len() as int)
    }
}

/// Trimming cuts white space, only at the ends, and leaves none there.
pub proof fn trimming_cuts_white_space(s: Seq<char>)
    ensures
        exists|from: int, to: int|
            #[trigger] trimmed_cut(s, from, to) && trimmed(s) == s.subrange(from, to) && (from < to
                ==> !(is_white_space(s[from])) && !(is_white_space(s[to - 1]))),
{
    let (from, to) = trimmed_bounds(s);
    assert(trimmed_cut(s, from, to));
}

/// Of ASCII, exactly the space and the characters from the tabulator to the
/// carriage return are white space.
pub proof fn ascii_white_space(c: char)
    requires
        (c as int) < 0x80,
    ensures
        is_white_space(c) <==> c == ' ' || '\t' <= c <= '\r',
{
}

/// What is left of `s` between `from` and `to` when NULs are cut at its ends.
pub open spec fn trim_nuls_cut(s: Seq<char>, from: int, to: int) -> bool {
    &&& 0 <= from <= to <= s.len()
    &&& forall|i: int| 0 <= i < from ==> #[trigger] s[i] == '\0'
    &&& forall|i: int| to <= i < s.len() ==> #[trigger] s[i] == '\0'
}

proof fn trim_nuls_bounds(s: Seq<char>) -> (r: (int, int))
    ensures
        trim_nuls_cut(s, r.0, r.1),
        trim_nuls(s) == s.subrange(r.0, r.1),
        r.0 < r.1 ==> !(s[r.0] == '\0') && !(s[r.1 - 1] == '\0'),
    decreases s.len(),
{
    if s.len() > 0 && s[0] == '\0' {
        let rest = s.drop_first();
        let (from, to) = trim_nuls_bounds(rest);
        assert(s.subrange(from + 1, to + 1) =~= rest.subrange(from, to));
        assert forall|i: int| 0 <= i < from + 1 implies #[trigger] s[i] == '\0' by {
            if i > 0 {
                assert(rest[i - 1] == s[i]);
            }
        }
        assert forall|i: int| to + 1 <= i < s.len() implies #[trigger] s[i] == '\0' by {
            assert(rest[i - 1] == s[i]);
        }
        (from + 1, to + 1)
    } else if s.len() > 0 && s.last() == '\0' {
        let rest = s.drop_last();
        let (from, to) = trim_nuls_bounds(rest);
        assert(s.subrange(from, to) =~= rest.subrange(from, to));
        assert forall|i: int| 0 <= i < from implies #[trigger] s[i] == '\0' by {
            assert(rest[i] == s[i]);
        }
        assert forall|i: int| to <= i < s.len() implies #[trigger] s[i] == '\0' by {
            if i < rest.len() {
                assert(rest[i] == s[i]);
            }
        }
        (from, to)
    } else {
        assert(s.subrange(0, s.len() as int) =~= s);
        (0, s.len() as int)
    }
}

/// NULs are cut, only at the ends, and none is left there.
pub proof fn trimming_cuts_nuls(s: Seq<char>)
    ensures
        exists|from: int, to: int|
            #[trigger] trim_nuls_cut(s, from, to) && trim_nuls(s) == s.subrange(from, to) && (from < to
                ==> !(s[from] == '\0') && !(s[to - 1] == '\0')),
{
    let (from, to) = trim_nuls_bounds(s);
    assert(trim_nuls_cut(s, from, to));
}

/// How code units are decoded, from the front: a pair of surrogates is one
/// character, a surrogate without the other half is replaced, and any other unit is
/// the character with its number.
pub proof fn code_units_are_decoded_from_the_front(rest: Seq<u16>, unit: u16)
    ensures
        utf16_chars(Seq::empty()) == Seq::<char>::empty(),
        unit < 0xd800 || unit > 0xdfff ==> utf16_chars(seq![unit] + rest) == seq![unit as char]
            + utf16_chars(rest),
        0xdc00 <= unit <= 0xdfff ==> utf16_chars(seq![unit] + rest) == seq!['\u{FFFD}']
            + utf16_chars(rest),
        0xd800 <= unit <= 0xdbff && (rest.len() == 0 || rest[0] < 0xdc00 || rest[0] > 0xdfff)
            ==> utf16_chars(seq![unit] + rest) == seq!['\u{FFFD}'] + utf16_chars(rest),
        0xd800 <= unit <= 0xdbff && rest.len() > 0 && 0xdc00 <= rest[0] <= 0xdfff ==> utf16_chars(
            seq![unit] + rest,
        ) == seq![
            (0x1_0000 + 0x400 * (unit - 0xd800) + (rest[0] - 0xdc00)) as char,
        ] + utf16_chars(rest.skip(1)),
{
    let all = seq![unit] + rest;
    assert(all.skip(1) =~= rest);
    if rest.len() > 0 {
        assert(all.skip(2) =~= rest.skip(1));
    }
}

/// In a string that can be terminated by a NUL, no unit but the last is one.
pub proof fn only_the_last_unit_may_be_a_nul(units: Seq<u16>)
    ensures
        is_c_string(units) <==> forall|i: int| 0 <= i < units.len() - 1 ==> #[trigger] units[i] != 0,
{
    first_index_properties(units, 0);
    if forall|i: int| 0 <= i < units.len() - 1 ==> #[trigger] units[i] != 0 {
        if first_index(units, 0) + 1 < units.len() {
            assert(units[first_index(units, 0) as int] != 0);
        }
    }
}

/// What stands before the first NUL.
pub proof fn units_end_at_the_first_nul(units: Seq<u16>)
    ensures
        until_nul(units).len() <= units.len(),
        forall|i: int|
            0 <= i < until_nul(units).len() ==> #[trigger] until_nul(units)[i] == units[i]
                && units[i] != 0,
        until_nul(units).len() < units.len() ==> units[until_nul(units).len() as int] == 0,
{
    first_index_properties(units, 0);
}

/// The code units of a byte string are little-endian; a trailing byte is dropped.
pub proof fn code_units_are_little_endian(s: Seq<u8>, i: int)
    requires
        0 <= i < s.len() / 2,
    ensures
        units_of(s).len() == s.len() / 2,
        units_of(s)[i] == bytes::little_endian(s.subrange(2 * i, 2 * i + 2)),
{
    bytes::stored_numbers_are_little_endian(s, 2 * i);
}

} // verus!
