//! The kernel logger's group mask.
use vstd::prelude::*;

use crate::bytes;
use crate::trace::kernel::ExtendedKernelGroup;

verus! {

/// How many masks a group mask has
pub const MASK_COUNT: usize = 8;

/// Size in bytes of a group mask
pub const GROUPMASK_BYTES: usize = 32;

/// The index of the mask a group id applies to: its top 3 bits.
pub open spec fn mask_index(group: u32) -> int {
    group as int / 0x2000_0000
}

/// The groups a group id selects within its mask: its low 29 bits.
pub open spec fn mask_bits(group: u32) -> u32 {
    group & 0x1fff_ffff
}

/// `masks` with one more group enabled.
pub open spec fn with_group(masks: Seq<u32>, group: u32) -> Seq<u32> {
    masks.update(mask_index(group), masks[mask_index(group)] | mask_bits(group))
}

/// `masks` with all of `groups` enabled.
pub open spec fn with_groups(masks: Seq<u32>, groups: Seq<ExtendedKernelGroup>) -> Seq<u32>
    decreases groups.len(),
{
    if groups.len() == 0 {
        masks
    } else {
        with_group(with_groups(masks, groups.drop_last()), groups.last().id())
    }
}

/// Whether every bit of a group id is set in its mask.
pub open spec fn is_enabled(masks: Seq<u32>, group: u32) -> bool {
    masks[mask_index(group)] & mask_bits(group) == mask_bits(group)
}

/// The kernel logger's group mask, payload of the
/// `TraceSystemTraceEnableFlagsInfo` information class: eight 32-bit masks
///
/// A group id encodes the index of its target mask in its top 3 bits, and the
/// groups to enable within that mask in the remaining 29 bits.
#[derive(Clone, Copy, Debug)]
pub struct PerfinfoGroupmask {
    masks: [u32; 8],
}

impl View for PerfinfoGroupmask {
    type V = Seq<u32>;

    /// The eight masks.
    closed spec fn view(&self) -> Seq<u32> {
        self.masks@
    }
}

impl Default for PerfinfoGroupmask {
    fn default() -> (r: Self)
        ensures
            r@ == Seq::new(8, |i: int| 0u32),
    {
        PerfinfoGroupmask { masks: [0u32; 8] }
    }
}

impl PerfinfoGroupmask {
    /// Merges a raw group id into the mask.
    pub fn set_group(&mut self, group: u32)
        ensures
            final(self)@ == with_group(old(self)@, group),
    {
        let index: usize = (group / 0x2000_0000) as usize;
        self.masks[index] = self.masks[index] | (group & 0x1fff_ffff);
    }

    /// Merges the given extended kernel groups into the mask.
    pub fn set_groups(&mut self, groups: &[ExtendedKernelGroup])
        ensures
            final(self)@ == with_groups(old(self)@, groups@),
    {
        let ghost before = self@;
        let mut i: usize = 0;
        while i < groups.len()
            invariant
                i <= groups@.len(),
                self@ == with_groups(before, groups@.take(i as int)),
            decreases groups.len() - i,
        {
            let ghost now = groups@.take(i + 1);
            assert(now.drop_last() == groups@.take(i as int));
            self.set_group(groups[i].group_id());
            i += 1;
        }
        assert(groups@.take(i as int) == groups@);
    }

    /// The eight masks.
    pub fn masks(&self) -> (r: &[u32; 8])
        ensures
            r@ == self@,
    {
        &self.masks
    }

    /// The bytes of the mask, as the native API takes them: its masks, in order.
    pub fn as_bytes(&self) -> (r: Vec<u8>)
        ensures
            r@ == bytes::u32s_bytes(self@),
            r@.len() == GROUPMASK_BYTES,
    {
        let mut out: Vec<u8> = Vec::new();
        bytes::push_u32s(&mut out, self.masks.as_slice());
        proof {
            bytes::u32s_round_trip(Seq::empty(), self@, Seq::empty());
            assert(out@ =~= bytes::u32s_bytes(self@));
        }
        out
    }

    /// The mask whose bytes a query filled in.
    pub fn from_bytes(buf: &[u8]) -> (r: PerfinfoGroupmask)
        requires
            buf@.len() == GROUPMASK_BYTES,
        ensures
            r@ == Seq::new(8, |i: int| bytes::u32_at(buf@, 4 * i)),
    {
        let mut masks: [u32; 8] = [0u32; 8];
        let mut i: usize = 0;
        while i < 8
            invariant
                i <= 8,
                buf@.len() == 32,
                forall|j: int| 0 <= j < i ==> #[trigger] masks@[j] == bytes::u32_at(buf@, 4 * j),
            decreases 8 - i,
        {
            masks[i] = bytes::read_u32(buf, 4 * i);
            i += 1;
        }
        PerfinfoGroupmask { masks }
    }
}

/// Every group merged into a mask is enabled afterwards, and so is every group
/// that was enabled before.
pub proof fn merged_groups_are_enabled(
    masks: Seq<u32>,
    groups: Seq<ExtendedKernelGroup>,
    group: u32,
)
    requires
        masks.len() == MASK_COUNT,
        is_enabled(masks, group) || exists|i: int|
            0 <= i < groups.len() && (#[trigger] groups[i]).id() == group,
    ensures
        is_enabled(with_groups(masks, groups), group),
        with_groups(masks, groups).len() == MASK_COUNT,
    decreases groups.len(),
{
    if groups.len() > 0 {
        let rest = groups.drop_last();
        let last = groups.last().id();
        groups_keep_the_length(masks, rest);
        let before = with_groups(masks, rest);
        if last == group {
            enabling_enables(before[mask_index(group)], mask_bits(group));
        } else {
            if !is_enabled(masks, group) {
                let i = choose|i: int| 0 <= i < groups.len() && (#[trigger] groups[i]).id() == group;
                assert(rest[i] == groups[i]);
            }
            merged_groups_are_enabled(masks, rest, group);
            enabling_keeps(before[mask_index(group)], mask_bits(last), mask_bits(group));
        }
    }
}

proof fn groups_keep_the_length(masks: Seq<u32>, groups: Seq<ExtendedKernelGroup>)
    requires
        masks.len() == MASK_COUNT,
    ensures
        with_groups(masks, groups).len() == masks.len(),
    decreases groups.len(),
{
    if groups.len() > 0 {
        groups_keep_the_length(masks, groups.drop_last());
    }
}

proof fn enabling_enables(mask: u32, bits: u32)
    by (bit_vector)
    ensures
        (mask | bits) & bits == bits,
{
}

proof fn enabling_keeps(mask: u32, more: u32, bits: u32)
    by (bit_vector)
    requires
        mask & bits == bits,
    ensures
        (mask | more) & bits == bits,
{
}

proof fn mask_union_laws(mask: u32, a: u32, b: u32)
    by (bit_vector)
    ensures
        (mask | a) | a == mask | a,
        (mask | a) | b == (mask | b) | a,
{
}

/// Merging a group twice is the same as merging it once, and the order of two
/// groups does not matter.
pub proof fn group_order_does_not_matter(masks: Seq<u32>, a: u32, b: u32)
    requires
        masks.len() == MASK_COUNT,
    ensures
        with_group(with_group(masks, a), a) == with_group(masks, a),
        with_group(with_group(masks, a), b) == with_group(with_group(masks, b), a),
{
    mask_union_laws(masks[mask_index(a)], mask_bits(a), mask_bits(b));
    assert(with_group(with_group(masks, a), a) =~= with_group(masks, a));
    assert(with_group(with_group(masks, a), b) =~= with_group(with_group(masks, b), a));
}

/// Reading back the bytes of a group mask gives the same masks.
pub proof fn groupmask_round_trip(masks: Seq<u32>)
    requires
        masks.len() == MASK_COUNT,
    ensures
        bytes::u32s_bytes(masks).len() == GROUPMASK_BYTES,
        Seq::new(8, |i: int| bytes::u32_at(bytes::u32s_bytes(masks), 4 * i)) == masks,
{
    bytes::u32s_round_trip(Seq::empty(), masks, Seq::empty());
    let data = bytes::u32s_bytes(masks);
    assert(Seq::<u8>::empty() + data + Seq::<u8>::empty() =~= data);
    assert forall|i: int| 0 <= i < 8 implies bytes::u32_at(data, 4 * i) == masks[i] by {
        assert(bytes::u32_at(Seq::<u8>::empty() + data + Seq::<u8>::empty(), 0 + 4 * i)
            == masks[i]);
    }
    assert(Seq::new(8, |i: int| bytes::u32_at(data, 4 * i)) =~= masks);
}

/// A group id selects, by its top three bits, the mask it is merged into, and by
/// its other bits the bits that are set there. Other bits and masks stay.
pub proof fn groups_are_merged_into_their_mask(masks: Seq<u32>, group: u32, i: int)
    requires
        masks.len() == 8,
        0 <= i < 8,
    ensures
        with_group(masks, group).len() == 8,
        ({
            let before = masks[i];
            let after = with_group(masks, group)[i];
            let bits: u32 = group % 0x2000_0000;
            &&& group / 0x2000_0000 != i ==> after == before
            &&& group / 0x2000_0000 == i ==> {
                &&& after & bits == bits
                &&& after & before == before
                &&& after & !(before | bits) == 0
            }
        }),
{
    let before = masks[i];
    let bits: u32 = group % 0x2000_0000;
    assert(group & 0x1fff_ffff == group % 0x2000_0000) by (bit_vector);
    assert((before | bits) & bits == bits && (before | bits) & before == before && (before | bits)
        & !(before | bits) == 0) by (bit_vector);
}

/// Groups are merged one after the other.
pub proof fn groups_are_merged_one_by_one(
    masks: Seq<u32>,
    groups: Seq<ExtendedKernelGroup>,
    more: ExtendedKernelGroup,
)
    ensures
        with_groups(masks, Seq::empty()) == masks,
        with_groups(masks, groups.push(more)) == with_group(with_groups(masks, groups), more.id()),
{
    assert(groups.push(more).drop_last() =~= groups);
}

/// The masks are handed over in order, each as a little-endian number.
pub proof fn masks_are_little_endian(masks: Seq<u32>, i: int)
    requires
        masks.len() == 8,
        0 <= i < 8,
    ensures
        bytes::little_endian(bytes::u32s_bytes(masks).subrange(4 * i, 4 * i + 4)) == masks[i],
{
    bytes::u32s_round_trip(Seq::empty(), masks, Seq::empty());
    let data = bytes::u32s_bytes(masks);
    assert(Seq::<u8>::empty() + data + Seq::<u8>::empty() =~= data);
    assert(bytes::u32_at(data, Seq::<u8>::empty().len() + 4 * i) == masks[i]);
    bytes::stored_numbers_are_little_endian(data, 4 * i);
}

} // verus!
