//! Little-endian integers inside byte buffers.
//!
//! ETW user data is packed and carries no alignment guarantee, so every field
//! is assembled from its bytes. All Windows targets are little-endian: the
//! native byte order of an event is the one used here.
use vstd::prelude::*;

verus! {

/// The `u16` stored at `at`.
pub open spec fn u16_at(s: Seq<u8>, at: int) -> u16 {
    (s[at] + 0x100 * s[at + 1]) as u16
}

/// The `u16` stored at `at`, most significant byte first.
pub open spec fn u16_be_at(s: Seq<u8>, at: int) -> u16 {
    (0x100 * s[at] + s[at + 1]) as u16
}

/// The `u32` stored at `at`.
pub open spec fn u32_at(s: Seq<u8>, at: int) -> u32 {
    (u16_at(s, at) + 0x1_0000 * u16_at(s, at + 2)) as u32
}

/// The `u64` stored at `at`.
pub open spec fn u64_at(s: Seq<u8>, at: int) -> u64 {
    (u32_at(s, at) + 0x1_0000_0000 * u32_at(s, at + 4)) as u64
}

/// The two bytes of `v`.
pub open spec fn u16_bytes(v: u16) -> Seq<u8> {
    seq![(v % 0x100) as u8, (v / 0x100) as u8]
}

/// The four bytes of `v`.
pub open spec fn u32_bytes(v: u32) -> Seq<u8> {
    u16_bytes((v % 0x1_0000) as u16) + u16_bytes((v / 0x1_0000) as u16)
}

/// The eight bytes of `v`.
pub open spec fn u64_bytes(v: u64) -> Seq<u8> {
    u32_bytes((v % 0x1_0000_0000) as u32) + u32_bytes((v / 0x1_0000_0000) as u32)
}

/// Reading a `u16` where it was written gives it back.
pub proof fn u16_round_trip(before: Seq<u8>, v: u16, after: Seq<u8>)
    ensures
        u16_at(before + u16_bytes(v) + after, before.len() as int) == v,
{
    let s = before + u16_bytes(v) + after;
    let at = before.len() as int;
    assert(s[at] == (v % 0x100) as u8);
    assert(s[at + 1] == (v / 0x100) as u8);
}

/// Reading a `u32` where it was written gives it back.
pub proof fn u32_round_trip(before: Seq<u8>, v: u32, after: Seq<u8>)
    ensures
        u32_at(before + u32_bytes(v) + after, before.len() as int) == v,
{
    let low = (v % 0x1_0000) as u16;
    let high = (v / 0x1_0000) as u16;
    let s = before + u32_bytes(v) + after;
    u16_round_trip(before, low, u16_bytes(high) + after);
    assert(s =~= before + u16_bytes(low) + (u16_bytes(high) + after));
    u16_round_trip(before + u16_bytes(low), high, after);
    assert(s =~= before + u16_bytes(low) + u16_bytes(high) + after);
}

/// Reading a `u64` where it was written gives it back.
pub proof fn u64_round_trip(before: Seq<u8>, v: u64, after: Seq<u8>)
    ensures
        u64_at(before + u64_bytes(v) + after, before.len() as int) == v,
{
    let low = (v % 0x1_0000_0000) as u32;
    let high = (v / 0x1_0000_0000) as u32;
    let s = before + u64_bytes(v) + after;
    u32_round_trip(before, low, u32_bytes(high) + after);
    assert(s =~= before + u32_bytes(low) + (u32_bytes(high) + after));
    u32_round_trip(before + u32_bytes(low), high, after);
    assert(s =~= before + u32_bytes(low) + u32_bytes(high) + after);
}

/// Reads the `u16` at `at`.
pub fn read_u16(buffer: &[u8], at: usize) -> (r: u16)
    requires
        at + 2 <= buffer@.len(),
    ensures
        r == u16_at(buffer@, at as int),
{
    buffer[at] as u16 + 0x100 * (buffer[at + 1] as u16)
}

/// Reads the big-endian `u16` at `at`.
pub fn read_u16_be(buffer: &[u8], at: usize) -> (r: u16)
    requires
        at + 2 <= buffer@.len(),
    ensures
        r == u16_be_at(buffer@, at as int),
{
    0x100 * (buffer[at] as u16) + buffer[at + 1] as u16
}

/// Reads the `u32` at `at`.
pub fn read_u32(buffer: &[u8], at: usize) -> (r: u32)
    requires
        at + 4 <= buffer@.len(),
    ensures
        r == u32_at(buffer@, at as int),
{
    assert(at + 4 <= buffer.len());
    read_u16(buffer, at) as u32 + 0x1_0000 * (read_u16(buffer, at + 2) as u32)
}

/// Reads the `u64` at `at`.
pub fn read_u64(buffer: &[u8], at: usize) -> (r: u64)
    requires
        at + 8 <= buffer@.len(),
    ensures
        r == u64_at(buffer@, at as int),
{
    assert(at + 8 <= buffer.len());
    read_u32(buffer, at) as u64 + 0x1_0000_0000 * (read_u32(buffer, at + 4) as u64)
}

/// Appends the bytes of `v`.
pub fn push_u16(out: &mut Vec<u8>, v: u16)
    ensures
        final(out)@ == old(out)@ + u16_bytes(v),
{
    out.push((v % 0x100) as u8);
    out.push((v / 0x100) as u8);
}

/// Appends the bytes of `v`.
pub fn push_u32(out: &mut Vec<u8>, v: u32)
    ensures
        final(out)@ == old(out)@ + u32_bytes(v),
{
    push_u16(out, (v % 0x1_0000) as u16);
    push_u16(out, (v / 0x1_0000) as u16);
}

/// Appends the bytes of `v`.
pub fn push_u64(out: &mut Vec<u8>, v: u64)
    ensures
        final(out)@ == old(out)@ + u64_bytes(v),
{
    push_u32(out, (v % 0x1_0000_0000) as u32);
    push_u32(out, (v / 0x1_0000_0000) as u32);
}

/// Appends all of `data`.
pub fn push_all(out: &mut Vec<u8>, data: &[u8])
    ensures
        final(out)@ == old(out)@ + data@,
{
    let mut i: usize = 0;
    while i < data.len()
        invariant
            i <= data@.len(),
            out@ == old(out)@ + data@.take(i as int),
        decreases data@.len() - i,
    {
        out.push(data[i]);
        assert(data@.take(i + 1) =~= data@.take(i as int).push(data@[i as int]));
        i = i + 1;
    }
    assert(data@.take(i as int) =~= data@);
}

/// A copy of `buffer[start..end]`.
pub fn copy_range(buffer: &[u8], start: usize, end: usize) -> (r: Vec<u8>)
    requires
        start <= end <= buffer@.len(),
    ensures
        r@ == buffer@.subrange(start as int, end as int),
{
    let mut r: Vec<u8> = Vec::new();
    let mut i: usize = start;
    while i < end
        invariant
            start <= i <= end <= buffer@.len(),
            r@ == buffer@.subrange(start as int, i as int),
        decreases end - i,
    {
        r.push(buffer[i]);
        i = i + 1;
    }
    r
}

/// The bytes of a list of `u16`s, one after the other.
pub open spec fn u16s_bytes(values: Seq<u16>) -> Seq<u8>
    decreases values.len(),
{
    if values.len() == 0 {
        Seq::empty()
    } else {
        u16s_bytes(values.drop_last()) + u16_bytes(values.last())
    }
}

/// The bytes of a list of `u32`s, one after the other.
pub open spec fn u32s_bytes(values: Seq<u32>) -> Seq<u8>
    decreases values.len(),
{
    if values.len() == 0 {
        Seq::empty()
    } else {
        u32s_bytes(values.drop_last()) + u32_bytes(values.last())
    }
}

/// Reading the values of a list of `u16`s where they were written gives them
/// back.
pub proof fn u16s_round_trip(before: Seq<u8>, values: Seq<u16>, after: Seq<u8>)
    ensures
        u16s_bytes(values).len() == 2 * values.len(),
        forall|i: int|
            0 <= i < values.len() ==> #[trigger] u16_at(
                before + u16s_bytes(values) + after,
                before.len() + 2 * i,
            ) == values[i],
    decreases values.len(),
{
    if values.len() > 0 {
        let rest = values.drop_last();
        let tail = u16_bytes(values.last()) + after;
        let all = before + u16s_bytes(values) + after;
        u16s_round_trip(before, rest, tail);
        assert(all =~= before + u16s_bytes(rest) + tail);
        u16_round_trip(before + u16s_bytes(rest), values.last(), after);
        assert(all =~= before + u16s_bytes(rest) + u16_bytes(values.last()) + after);
        assert forall|i: int| 0 <= i < values.len() implies #[trigger] u16_at(
            all,
            before.len() + 2 * i,
        ) == values[i] by {
            if i < rest.len() {
                assert(rest[i] == values[i]);
            }
        }
    }
}

/// Reading the values of a list of `u32`s where they were written gives them
/// back.
pub proof fn u32s_round_trip(before: Seq<u8>, values: Seq<u32>, after: Seq<u8>)
    ensures
        u32s_bytes(values).len() == 4 * values.len(),
        forall|i: int|
            0 <= i < values.len() ==> #[trigger] u32_at(
                before + u32s_bytes(values) + after,
                before.len() + 4 * i,
            ) == values[i],
    decreases values.len(),
{
    if values.len() > 0 {
        let rest = values.drop_last();
        let tail = u32_bytes(values.last()) + after;
        let all = before + u32s_bytes(values) + after;
        u32s_round_trip(before, rest, tail);
        assert(all =~= before + u32s_bytes(rest) + tail);
        u32_round_trip(before + u32s_bytes(rest), values.last(), after);
        assert(all =~= before + u32s_bytes(rest) + u32_bytes(values.last()) + after);
        assert forall|i: int| 0 <= i < values.len() implies #[trigger] u32_at(
            all,
            before.len() + 4 * i,
        ) == values[i] by {
            if i < rest.len() {
                assert(rest[i] == values[i]);
            }
        }
    }
}

/// Appends a list of `u16`s.
pub fn push_u16s(out: &mut Vec<u8>, values: &[u16])
    ensures
        final(out)@ == old(out)@ + u16s_bytes(values@),
{
    let ghost before = out@;
    let mut i: usize = 0;
    assert(before + u16s_bytes(values@.take(0)) =~= before);
    while i < values.len()
        invariant
            i <= values@.len(),
            out@ == before + u16s_bytes(values@.take(i as int)),
        decreases values.len() - i,
    {
        let ghost now = values@.take(i + 1);
        assert(now.drop_last() =~= values@.take(i as int));
        push_u16(out, values[i]);
        assert(out@ =~= before + u16s_bytes(now));
        i += 1;
    }
    assert(values@.take(i as int) =~= values@);
}

/// Appends a list of `u32`s.
pub fn push_u32s(out: &mut Vec<u8>, values: &[u32])
    ensures
        final(out)@ == old(out)@ + u32s_bytes(values@),
{
    let ghost before = out@;
    let mut i: usize = 0;
    assert(before + u32s_bytes(values@.take(0)) =~= before);
    while i < values.len()
        invariant
            i <= values@.len(),
            out@ == before + u32s_bytes(values@.take(i as int)),
        decreases values.len() - i,
    {
        let ghost now = values@.take(i + 1);
        assert(now.drop_last() =~= values@.take(i as int));
        push_u32(out, values[i]);
        assert(out@ =~= before + u32s_bytes(now));
        i += 1;
    }
    assert(values@.take(i as int) =~= values@);
}

/// The number whose digits to the base 256 are `digits`, the least significant one
/// first.
pub open spec fn little_endian(digits: Seq<u8>) -> int
    decreases digits.len(),
{
    if digits.len() == 0 {
        0
    } else {
        digits[0] + 0x100 * little_endian(digits.drop_first())
    }
}

/// The number whose digits to the base 256 are `digits`, the most significant one
/// first.
pub open spec fn big_endian(digits: Seq<u8>) -> int
    decreases digits.len(),
{
    if digits.len() == 0 {
        0
    } else {
        0x100 * big_endian(digits.drop_last()) + digits.last()
    }
}

/// The numbers stored at a place are those whose digits stand there, the least
/// significant one first.
pub proof fn stored_numbers_are_little_endian(s: Seq<u8>, at: int)
    requires
        0 <= at,
    ensures
        at + 2 <= s.len() ==> u16_at(s, at) == little_endian(s.subrange(at, at + 2)),
        at + 4 <= s.len() ==> u32_at(s, at) == little_endian(s.subrange(at, at + 4)),
        at + 8 <= s.len() ==> u64_at(s, at) == little_endian(s.subrange(at, at + 8)),
{
    reveal_with_fuel(little_endian, 9);
    if at + 2 <= s.len() {
        let d = s.subrange(at, at + 2);
        assert(d.drop_first().drop_first() =~= Seq::empty());
        assert(d[0] == s[at] && d.drop_first()[0] == s[at + 1]);
    }
    if at + 4 <= s.len() {
        let d = s.subrange(at, at + 4);
        assert(d.drop_first() =~= s.subrange(at + 1, at + 4));
        assert(d.drop_first().drop_first() =~= s.subrange(at + 2, at + 4));
        assert(d.drop_first().drop_first().drop_first() =~= s.subrange(at + 3, at + 4));
        assert(d.drop_first().drop_first().drop_first().drop_first() =~= Seq::empty());
    }
    if at + 8 <= s.len() {
        let d = s.subrange(at, at + 8);
        let d1 = d.drop_first();
        let d2 = d1.drop_first();
        let d3 = d2.drop_first();
        let d4 = d3.drop_first();
        let d5 = d4.drop_first();
        let d6 = d5.drop_first();
        let d7 = d6.drop_first();
        assert(d1 =~= s.subrange(at + 1, at + 8));
        assert(d2 =~= s.subrange(at + 2, at + 8));
        assert(d3 =~= s.subrange(at + 3, at + 8));
        assert(d4 =~= s.subrange(at + 4, at + 8));
        assert(d5 =~= s.subrange(at + 5, at + 8));
        assert(d6 =~= s.subrange(at + 6, at + 8));
        assert(d7 =~= s.subrange(at + 7, at + 8));
        assert(d7.drop_first() =~= Seq::empty());
    }
}

/// The digits of a written number make up the number, the least significant one
/// first.
pub proof fn written_numbers_are_little_endian(v16: u16, v32: u32, v64: u64)
    ensures
        u16_bytes(v16).len() == 2,
        little_endian(u16_bytes(v16)) == v16,
        u32_bytes(v32).len() == 4,
        little_endian(u32_bytes(v32)) == v32,
        u64_bytes(v64).len() == 8,
        little_endian(u64_bytes(v64)) == v64,
{
    let none = Seq::<u8>::empty();
    let b16 = u16_bytes(v16);
    let b32 = u32_bytes(v32);
    let b64 = u64_bytes(v64);
    u16_round_trip(none, v16, none);
    u32_round_trip(none, v32, none);
    u64_round_trip(none, v64, none);
    assert(none + b16 + none =~= b16);
    assert(none + b32 + none =~= b32);
    assert(none + b64 + none =~= b64);
    stored_numbers_are_little_endian(b16, 0);
    stored_numbers_are_little_endian(b32, 0);
    stored_numbers_are_little_endian(b64, 0);
    assert(b16.subrange(0, 2) =~= b16);
    assert(b32.subrange(0, 4) =~= b32);
    assert(b64.subrange(0, 8) =~= b64);
}

/// The big-endian number stored at a place is the one whose digits stand there,
/// the most significant one first.
pub proof fn big_endian_u16_is_stored(s: Seq<u8>, at: int)
    requires
        0 <= at,
        at + 2 <= s.len(),
    ensures
        u16_be_at(s, at) == big_endian(s.subrange(at, at + 2)),
{
    reveal_with_fuel(big_endian, 3);
    let d = s.subrange(at, at + 2);
    assert(d.drop_last() =~= s.subrange(at, at + 1));
    assert(d.drop_last().drop_last() =~= Seq::empty());
}

/// Digits in front of others weigh more than these.
pub proof fn big_endian_concat(high: Seq<u8>, low: Seq<u8>)
    ensures
        big_endian(high + low) == big_endian(high) * vstd::arithmetic::power::pow(
            0x100,
            low.len(),
        ) + big_endian(low),
    decreases low.len(),
{
    reveal(vstd::arithmetic::power::pow);
    if low.len() == 0 {
        assert(high + low =~= high);
    } else {
        assert((high + low).drop_last() =~= high + low.drop_last());
        big_endian_concat(high, low.drop_last());
        let p = vstd::arithmetic::power::pow(0x100, low.drop_last().len());
        assert(0x100 * (big_endian(high) * p) == big_endian(high) * (0x100 * p)) by (nonlinear_arith);
    }
}

/// Different digits make up different numbers.
pub proof fn big_endian_is_injective(a: Seq<u8>, b: Seq<u8>)
    requires
        a.len() == b.len(),
        big_endian(a) == big_endian(b),
    ensures
        a == b,
    decreases a.len(),
{
    if a.len() > 0 {
        big_endian_is_injective(a.drop_last(), b.drop_last());
        assert(a =~= a.drop_last().push(a.last()));
        assert(b =~= b.drop_last().push(b.last()));
    } else {
        assert(a =~= b);
    }
}

} // verus!
