//! Collision groups: which boids take notice of which.

use vstd::prelude::*;

verus! {

/// How many collision groups there are.
pub const GROUP_COUNT: u32 = 32;

/// A set of collision groups, kept as a mask with one bit for each group.
///
/// Boids whose sets share no group ignore each other. The view of a set is
/// its mask: group `n` (counted from one) is bit `n - 1`.
#[derive(Clone, Copy, Debug, PartialEq, Eq, Structural)]
pub struct BoidCollisionGroup {
    bits: u32,
}

/// The mask that holds group `number` and nothing else.
pub open spec fn group_mask(number: u32) -> u32
    recommends
        1 <= number <= GROUP_COUNT,
{
    1u32 << ((number - 1) as u32)
}

/// Whether two masks have a group in common.
pub open spec fn masks_intersect(a: u32, b: u32) -> bool {
    a & b != 0
}

impl View for BoidCollisionGroup {
    type V = u32;

    closed spec fn view(&self) -> u32 {
        self.bits
    }
}

impl BoidCollisionGroup {
    /// Whether group `number` is in the set.
    pub open spec fn has_group(&self, number: u32) -> bool
        recommends
            1 <= number <= GROUP_COUNT,
    {
        self@ & group_mask(number) != 0
    }

    /// Whether the two sets have a group in common.
    pub open spec fn spec_intersects(&self, other: BoidCollisionGroup) -> bool {
        masks_intersect(self@, other@)
    }

    /// The set that holds group `number` alone, for `number` from 1 to 32;
    /// there is no other group.
    pub fn group(number: u32) -> (result: Option<BoidCollisionGroup>)
        ensures
            (1 <= number <= GROUP_COUNT) ==> result.is_some() && result.unwrap()@ == group_mask(
                number,
            ),
            !(1 <= number <= GROUP_COUNT) ==> result.is_none(),
    {
        if 1 <= number && number <= GROUP_COUNT {
            Some(BoidCollisionGroup { bits: 1u32 << (number - 1) })
        } else {
            None
        }
    }

    /// All of the groups.
    pub fn all() -> (result: BoidCollisionGroup)
        ensures
            result@ == u32::MAX,
    {
        BoidCollisionGroup { bits: u32::MAX }
    }

    /// None of the groups.
    pub fn none() -> (result: BoidCollisionGroup)
        ensures
            result@ == 0,
    {
        BoidCollisionGroup { bits: 0 }
    }

    /// The set with exactly the groups whose bits are set in `bits`.
    pub fn from_bits(bits: u32) -> (result: BoidCollisionGroup)
        ensures
            result@ == bits,
    {
        BoidCollisionGroup { bits }
    }

    /// The mask of the set.
    pub fn bits(&self) -> (bits: u32)
        ensures
            bits == self@,
    {
        self.bits
    }

    /// The groups of either set.
    pub fn union(self, other: BoidCollisionGroup) -> (result: BoidCollisionGroup)
        ensures
            result@ == self@ | other@,
    {
        BoidCollisionGroup { bits: self.bits | other.bits }
    }

    /// Whether the two sets have a group in common.
    pub fn intersects(&self, other: BoidCollisionGroup) -> (result: bool)
        ensures
            result == self.spec_intersects(other),
    {
        self.bits & other.bits != 0
    }
}

/// To have a group in common is mutual.
pub proof fn lemma_intersection_is_mutual(a: BoidCollisionGroup, b: BoidCollisionGroup)
    ensures
        a.spec_intersects(b) == b.spec_intersects(a),
{
    let x = a@;
    let y = b@;
    assert((x & y != 0) == (y & x != 0)) by (bit_vector);
}

/// The set of all groups has a group in common with every set but the empty
/// one, and the empty set has none in common with any.
pub proof fn lemma_all_and_none(all: BoidCollisionGroup, none: BoidCollisionGroup, other: BoidCollisionGroup)
    requires
        all@ == u32::MAX,
        none@ == 0,
    ensures
        all.spec_intersects(other) <==> other@ != 0,
        !none.spec_intersects(other),
{
    let y = other@;
    assert((0xffff_ffffu32 & y != 0) <==> y != 0) by (bit_vector);
    assert(0u32 & y == 0) by (bit_vector);
}

/// The set of one group holds that group and no other.
pub proof fn lemma_one_group_is_one_group(single: BoidCollisionGroup, number: u32, other: u32)
    requires
        1 <= number <= GROUP_COUNT,
        1 <= other <= GROUP_COUNT,
        single@ == group_mask(number),
    ensures
        single.has_group(other) <==> other == number,
{
    let n = (number - 1) as u32;
    let m = (other - 1) as u32;
    assert(((1u32 << n) & (1u32 << m) != 0) <==> m == n) by (bit_vector)
        requires
            n < 32,
            m < 32,
    ;
}

/// The union of two sets holds a group just when one of the two does.
pub proof fn lemma_union_holds_the_groups_of_both(
    a: BoidCollisionGroup,
    b: BoidCollisionGroup,
    both: BoidCollisionGroup,
    number: u32,
)
    requires
        both@ == a@ | b@,
    ensures
        both.has_group(number) <==> a.has_group(number) || b.has_group(number),
{
    let x = a@;
    let y = b@;
    let mask = group_mask(number);
    assert(((x | y) & mask != 0) <==> (x & mask != 0) || (y & mask != 0)) by (bit_vector);
}

/// A mask that is not empty has a bit that is set.
proof fn lemma_some_bit_is_set(mask: u32) -> (bit: u32)
    requires
        mask != 0,
    ensures
        bit < 32,
        mask & (1u32 << bit) != 0,
    decreases mask,
{
    if mask & 1 != 0 {
        assert(mask & (1u32 << 0u32) != 0) by (bit_vector)
            requires
                mask & 1 != 0,
        ;
        0
    } else {
        let half = mask >> 1;
        assert(half != 0 && half < mask) by (bit_vector)
            requires
                mask != 0,
                mask & 1 == 0,
                half == mask >> 1,
        ;
        let below = lemma_some_bit_is_set(half);
        assert(below < 31 && mask & (1u32 << ((below + 1) as u32)) != 0) by (bit_vector)
            requires
                half == mask >> 1,
                below < 32,
                half & (1u32 << below) != 0,
        ;
        (below + 1) as u32
    }
}

/// Two sets have a group in common just when some group is in both.
pub proof fn lemma_intersection_shares_a_group(a: BoidCollisionGroup, b: BoidCollisionGroup)
    ensures
        a.spec_intersects(b) <==> exists|number: u32|
            1 <= number <= GROUP_COUNT && #[trigger] a.has_group(number) && b.has_group(number),
{
    let x = a@;
    let y = b@;
    if a.spec_intersects(b) {
        let bit = lemma_some_bit_is_set(x & y);
        assert(x & (1u32 << bit) != 0 && y & (1u32 << bit) != 0) by (bit_vector)
            requires
                (x & y) & (1u32 << bit) != 0,
        ;
        let number = (bit + 1) as u32;
        assert((number - 1) as u32 == bit);
        assert(a.has_group(number) && b.has_group(number));
    }
    if exists|number: u32|
        1 <= number <= GROUP_COUNT && #[trigger] a.has_group(number) && b.has_group(number) {
        let number = choose|number: u32|
            1 <= number <= GROUP_COUNT && #[trigger] a.has_group(number) && b.has_group(number);
        let bit = (number - 1) as u32;
        assert(x & y != 0) by (bit_vector)
            requires
                x & (1u32 << bit) != 0,
                y & (1u32 << bit) != 0,
        ;
    }
}

impl Default for BoidCollisionGroup {
    /// A boid that names no group belongs to all of them.
    fn default() -> (result: BoidCollisionGroup)
        ensures
            result@ == u32::MAX,
    {
        BoidCollisionGroup { bits: u32::MAX }
    }
}

} // verus!
