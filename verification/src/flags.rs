//! The two flag bytes that the runtime keeps for every drawable.
//!
//! A flag byte is read as the set of the places of its bits that are set:
//! place 0 is the lowest bit, place 7 the highest. The bytes are the
//! runtime's: this module tests them and never changes one.
use crate::sys::{
    csmBlendAdditive, csmBlendMultiplicative, csmDrawOrderDidChange, csmIsDoubleSided,
    csmIsVisible, csmOpacityDidChange, csmRenderOrderDidChange, csmVertexPositionsDidChange,
    csmVisibilityDidChange,
};
use vstd::prelude::*;

verus! {

/// The byte in which the bit at place `i` is set and no other; zero for a
/// place that a byte does not have.
pub open spec fn bit(i: nat) -> u8 {
    if i == 0 {
        0x01
    } else if i == 1 {
        0x02
    } else if i == 2 {
        0x04
    } else if i == 3 {
        0x08
    } else if i == 4 {
        0x10
    } else if i == 5 {
        0x20
    } else if i == 6 {
        0x40
    } else if i == 7 {
        0x80
    } else {
        0
    }
}

/// The places of the bits of `bits` that are set.
pub open spec fn flags_of(bits: u8) -> Set<nat> {
    Set::new(|i: nat| i < 8 && bits & bit(i) != 0)
}

/// The places below `n`.
pub open spec fn places_below(n: nat) -> Set<nat> {
    Set::new(|i: nat| i < n)
}

proof fn lemma_and_is_subset(a: u8, b: u8)
    by (bit_vector)
    ensures
        (a & b == b) <==> {
            &&& (b & 0x01 != 0 ==> a & 0x01 != 0)
            &&& (b & 0x02 != 0 ==> a & 0x02 != 0)
            &&& (b & 0x04 != 0 ==> a & 0x04 != 0)
            &&& (b & 0x08 != 0 ==> a & 0x08 != 0)
            &&& (b & 0x10 != 0 ==> a & 0x10 != 0)
            &&& (b & 0x20 != 0 ==> a & 0x20 != 0)
            &&& (b & 0x40 != 0 ==> a & 0x40 != 0)
            &&& (b & 0x80 != 0 ==> a & 0x80 != 0)
        },
{
}

proof fn lemma_and_is_intersection(a: u8, b: u8)
    by (bit_vector)
    ensures
        (a & b) & 0x01 != 0 <==> a & 0x01 != 0 && b & 0x01 != 0,
        (a & b) & 0x02 != 0 <==> a & 0x02 != 0 && b & 0x02 != 0,
        (a & b) & 0x04 != 0 <==> a & 0x04 != 0 && b & 0x04 != 0,
        (a & b) & 0x08 != 0 <==> a & 0x08 != 0 && b & 0x08 != 0,
        (a & b) & 0x10 != 0 <==> a & 0x10 != 0 && b & 0x10 != 0,
        (a & b) & 0x20 != 0 <==> a & 0x20 != 0 && b & 0x20 != 0,
        (a & b) & 0x40 != 0 <==> a & 0x40 != 0 && b & 0x40 != 0,
        (a & b) & 0x80 != 0 <==> a & 0x80 != 0 && b & 0x80 != 0,
{
}

proof fn lemma_zero_is_empty(a: u8)
    by (bit_vector)
    ensures
        a == 0 <==> {
            &&& a & 0x01 == 0
            &&& a & 0x02 == 0
            &&& a & 0x04 == 0
            &&& a & 0x08 == 0
            &&& a & 0x10 == 0
            &&& a & 0x20 == 0
            &&& a & 0x40 == 0
            &&& a & 0x80 == 0
        },
{
}

proof fn lemma_low_bits(a: u8)
    by (bit_vector)
    ensures
        0x07u8 & 0x01 != 0 && 0x07u8 & 0x02 != 0 && 0x07u8 & 0x04 != 0,
        0x07u8 & 0x08 == 0 && 0x07u8 & 0x10 == 0 && 0x07u8 & 0x20 == 0,
        0x07u8 & 0x40 == 0 && 0x07u8 & 0x80 == 0,
        0x3Fu8 & 0x01 != 0 && 0x3Fu8 & 0x02 != 0 && 0x3Fu8 & 0x04 != 0,
        0x3Fu8 & 0x08 != 0 && 0x3Fu8 & 0x10 != 0 && 0x3Fu8 & 0x20 != 0,
        0x3Fu8 & 0x40 == 0 && 0x3Fu8 & 0x80 == 0,
{
}

proof fn lemma_single_bits(a: u8, b: u8)
    by (bit_vector)
    requires
        a == 0x01 || a == 0x02 || a == 0x04 || a == 0x08 || a == 0x10 || a == 0x20 || a == 0x40
            || a == 0x80,
        b == 0x01 || b == 0x02 || b == 0x04 || b == 0x08 || b == 0x10 || b == 0x20 || b == 0x40
            || b == 0x80,
    ensures
        a & b != 0 <==> a == b,
{
}

/// A byte holds all flags of another exactly if and-ing the two gives the
/// other.
pub proof fn lemma_subset(a: u8, b: u8)
    ensures
        (a & b == b) <==> flags_of(b).subset_of(flags_of(a)),
{
    lemma_and_is_subset(a, b);
    if a & b == b {
        assert forall|i: nat| flags_of(b).contains(i) implies flags_of(a).contains(i) by {}
    }
    if flags_of(b).subset_of(flags_of(a)) {
        assert(flags_of(b).contains(0) ==> flags_of(a).contains(0));
        assert(flags_of(b).contains(1) ==> flags_of(a).contains(1));
        assert(flags_of(b).contains(2) ==> flags_of(a).contains(2));
        assert(flags_of(b).contains(3) ==> flags_of(a).contains(3));
        assert(flags_of(b).contains(4) ==> flags_of(a).contains(4));
        assert(flags_of(b).contains(5) ==> flags_of(a).contains(5));
        assert(flags_of(b).contains(6) ==> flags_of(a).contains(6));
        assert(flags_of(b).contains(7) ==> flags_of(a).contains(7));
    }
}

/// The flags of the and of two bytes are the flags that both hold.
pub proof fn lemma_intersection(a: u8, b: u8)
    ensures
        flags_of(a & b) == flags_of(a).intersect(flags_of(b)),
{
    lemma_and_is_intersection(a, b);
    assert(flags_of(a & b) =~= flags_of(a).intersect(flags_of(b)));
}

/// Only the zero byte holds no flag.
pub proof fn lemma_empty(a: u8)
    ensures
        a == 0 <==> flags_of(a) == Set::<nat>::empty(),
{
    lemma_zero_is_empty(a);
    if a == 0 {
        assert(flags_of(a) =~= Set::<nat>::empty());
    }
    if flags_of(a) == Set::<nat>::empty() {
        assert(!flags_of(a).contains(0));
        assert(!flags_of(a).contains(1));
        assert(!flags_of(a).contains(2));
        assert(!flags_of(a).contains(3));
        assert(!flags_of(a).contains(4));
        assert(!flags_of(a).contains(5));
        assert(!flags_of(a).contains(6));
        assert(!flags_of(a).contains(7));
    }
}

/// Two sets are disjoint exactly if nothing is in both.
proof fn lemma_disjoint(a: Set<nat>, b: Set<nat>)
    ensures
        a.disjoint(b) <==> a.intersect(b) == Set::<nat>::empty(),
{
    if a.disjoint(b) {
        assert(a.intersect(b) =~= Set::<nat>::empty());
    }
    if a.intersect(b) == Set::<nat>::empty() {
        assert forall|x: nat| a.contains(x) && b.contains(x) implies false by {
            assert(a.intersect(b).contains(x));
        }
    }
}

/// Two bytes with the same flags are the same byte.
pub proof fn lemma_flags_determine_byte(a: u8, b: u8)
    ensures
        flags_of(a) == flags_of(b) ==> a == b,
{
    if flags_of(a) == flags_of(b) {
        lemma_subset(a, b);
        lemma_subset(b, a);
        assert(a & b == b && b & a == a);
        assert(a & b == b && b & a == a ==> a == b) by (bit_vector);
    }
}

/// The byte with one bit set holds the flag at the place of that bit, and no
/// other.
pub proof fn lemma_bit(k: nat)
    requires
        k < 8,
    ensures
        flags_of(bit(k)) == set![k],
{
    assert forall|i: nat| flags_of(bit(k)).contains(i) <==> i == k by {
        if i < 8 {
            lemma_single_bits(bit(k), bit(i));
        }
    }
    assert(flags_of(bit(k)) =~= set![k]);
}

/// A byte holds the flag at place `k` exactly if and-ing it with the bit at
/// that place leaves something.
pub proof fn lemma_holds_flag(bits: u8, k: nat)
    requires
        k < 8,
    ensures
        set![k].subset_of(flags_of(bits)) <==> bits & bit(k) != 0,
        flags_of(bits).contains(k) <==> bits & bit(k) != 0,
{
    assert(set![k].contains(k));
}

/// The bytes 0x07 and 0x3F hold the flags at the three and at the six lowest
/// places.
pub proof fn lemma_low_places()
    ensures
        flags_of(0x07) == places_below(3),
        flags_of(0x3F) == places_below(6),
{
    lemma_low_bits(0);
    assert(flags_of(0x07) =~= places_below(3));
    assert(flags_of(0x3F) =~= places_below(6));
}

/// The constant flags of a drawable: how it is to be blended and culled.
#[derive(Clone, Copy, Debug, PartialEq, Eq, Structural, Hash)]
pub struct ConstantFlags {
    bits: u8,
}

impl View for ConstantFlags {
    type V = Set<nat>;

    /// The places of the flags that are set.
    open spec fn view(&self) -> Set<nat> {
        flags_of(self.spec_bits())
    }
}

impl ConstantFlags {
    /// The byte of the runtime that holds the flags.
    pub closed spec fn spec_bits(&self) -> u8 {
        self.bits
    }

    /// The places of the flags that have a name.
    pub open spec fn known() -> Set<nat> {
        places_below(3)
    }

    /// The flag of a drawable that should be blended additively.
    pub fn blend_additive() -> (r: Self)
        ensures
            r.spec_bits() == csmBlendAdditive,
            r@ == set![0nat],
    {
        proof {
            lemma_bit(0);
        }
        ConstantFlags { bits: csmBlendAdditive }
    }

    /// The flag of a drawable that should be blended multiplicatively.
    pub fn blend_multiplicative() -> (r: Self)
        ensures
            r.spec_bits() == csmBlendMultiplicative,
            r@ == set![1nat],
    {
        proof {
            lemma_bit(1);
        }
        ConstantFlags { bits: csmBlendMultiplicative }
    }

    /// The flag of a drawable that is double sided and therefore shouldn't
    /// be culled.
    pub fn double_sided() -> (r: Self)
        ensures
            r.spec_bits() == csmIsDoubleSided,
            r@ == set![2nat],
    {
        proof {
            lemma_bit(2);
        }
        ConstantFlags { bits: csmIsDoubleSided }
    }

    /// Returns an empty set of flags.
    pub fn empty() -> (r: Self)
        ensures
            r.spec_bits() == 0,
            r@ == Set::<nat>::empty(),
    {
        proof {
            lemma_empty(0);
        }
        ConstantFlags { bits: 0 }
    }

    /// Returns the set of all flags that have a name.
    pub fn all() -> (r: Self)
        ensures
            r.spec_bits() == 0x07,
            r@ == Self::known(),
    {
        proof {
            lemma_low_places();
        }
        ConstantFlags { bits: 0x07 }
    }

    /// Returns the byte that holds the flags.
    #[verifier::when_used_as_spec(spec_bits)]
    pub fn bits(&self) -> (r: u8)
        ensures
            r == self.spec_bits(),
            flags_of(r) == self@,
    {
        self.bits
    }

    /// Reads a byte of the runtime as flags, if each bit that is set in it
    /// has a name.
    pub fn from_bits(bits: u8) -> (r: Option<Self>)
        ensures
            match r {
                Some(flags) => flags.spec_bits() == bits && flags_of(bits).subset_of(Self::known()),
                None => !flags_of(bits).subset_of(Self::known()),
            },
    {
        proof {
            lemma_low_places();
            lemma_subset(0x07, bits);
        }
        if 0x07 & bits == bits {
            Some(ConstantFlags { bits })
        } else {
            None
        }
    }

    /// Reads a byte of the runtime as flags, and leaves out the bits that
    /// have no name.
    pub fn from_bits_truncate(bits: u8) -> (r: Self)
        ensures
            r@ == flags_of(bits).intersect(Self::known()),
    {
        proof {
            lemma_low_places();
            lemma_intersection(bits, 0x07);
        }
        ConstantFlags { bits: bits & 0x07 }
    }

    /// Reads a byte of the runtime as flags, and keeps every bit of it.
    pub fn from_bits_retain(bits: u8) -> (r: Self)
        ensures
            r.spec_bits() == bits,
            r@ == flags_of(bits),
    {
        ConstantFlags { bits }
    }

    /// Returns `true` if no flag is set.
    pub fn is_empty(&self) -> (r: bool)
        ensures
            r == (self@ == Set::<nat>::empty()),
    {
        proof {
            lemma_empty(self.bits);
        }
        self.bits == 0
    }

    /// Returns `true` if every flag that has a name is set.
    pub fn is_all(&self) -> (r: bool)
        ensures
            r == Self::known().subset_of(self@),
    {
        proof {
            lemma_low_places();
            lemma_subset(self.bits, 0x07);
        }
        self.bits & 0x07 == 0x07
    }

    /// Returns `true` if some flag is set both in `self` and in `other`.
    pub fn intersects(&self, other: Self) -> (r: bool)
        ensures
            r == !self@.disjoint(other@),
    {
        proof {
            lemma_intersection(self.bits, other.bits);
            lemma_empty(self.bits & other.bits);
            lemma_disjoint(self@, other@);
        }
        self.bits & other.bits != 0
    }

    /// Returns `true` if every flag that is set in `other` is set in `self`.
    pub fn contains(&self, other: Self) -> (r: bool)
        ensures
            r == other@.subset_of(self@),
    {
        proof {
            lemma_subset(self.bits, other.bits);
        }
        self.bits & other.bits == other.bits
    }
}

/// The dynamic flags of a drawable: what the last update changed of it.
#[derive(Clone, Copy, Debug, PartialEq, Eq, Structural, Hash)]
pub struct DynamicFlags {
    bits: u8,
}

impl View for DynamicFlags {
    type V = Set<nat>;

    /// The places of the flags that are set.
    open spec fn view(&self) -> Set<nat> {
        flags_of(self.spec_bits())
    }
}

impl DynamicFlags {
    /// The byte of the runtime that holds the flags.
    pub closed spec fn spec_bits(&self) -> u8 {
        self.bits
    }

    /// The places of the flags that have a name.
    pub open spec fn known() -> Set<nat> {
        places_below(6)
    }

    /// The flag of a drawable that is visible.
    pub fn visible() -> (r: Self)
        ensures
            r.spec_bits() == csmIsVisible,
            r@ == set![0nat],
    {
        proof {
            lemma_bit(0);
        }
        DynamicFlags { bits: csmIsVisible }
    }

    /// The flag of a drawable whose visibility changed in the last update.
    pub fn visibility_changed() -> (r: Self)
        ensures
            r.spec_bits() == csmVisibilityDidChange,
            r@ == set![1nat],
    {
        proof {
            lemma_bit(1);
        }
        DynamicFlags { bits: csmVisibilityDidChange }
    }

    /// The flag of a drawable whose opacity changed in the last update.
    pub fn opacity_changed() -> (r: Self)
        ensures
            r.spec_bits() == csmOpacityDidChange,
            r@ == set![2nat],
    {
        proof {
            lemma_bit(2);
        }
        DynamicFlags { bits: csmOpacityDidChange }
    }

    /// The flag of a drawable whose drawing order changed in the last
    /// update.
    pub fn draw_order_changed() -> (r: Self)
        ensures
            r.spec_bits() == csmDrawOrderDidChange,
            r@ == set![3nat],
    {
        proof {
            lemma_bit(3);
        }
        DynamicFlags { bits: csmDrawOrderDidChange }
    }

    /// The flag of a drawable whose render order changed in the last update.
    pub fn render_order_changed() -> (r: Self)
        ensures
            r.spec_bits() == csmRenderOrderDidChange,
            r@ == set![4nat],
    {
        proof {
            lemma_bit(4);
        }
        DynamicFlags { bits: csmRenderOrderDidChange }
    }

    /// The flag of a drawable whose vertex positions changed in the last
    /// update.
    pub fn vertex_positions_changed() -> (r: Self)
        ensures
            r.spec_bits() == csmVertexPositionsDidChange,
            r@ == set![5nat],
    {
        proof {
            lemma_bit(5);
        }
        DynamicFlags { bits: csmVertexPositionsDidChange }
    }

    /// Returns an empty set of flags.
    pub fn empty() -> (r: Self)
        ensures
            r.spec_bits() == 0,
            r@ == Set::<nat>::empty(),
    {
        proof {
            lemma_empty(0);
        }
        DynamicFlags { bits: 0 }
    }

    /// Returns the set of all flags that have a name.
    pub fn all() -> (r: Self)
        ensures
            r.spec_bits() == 0x3F,
            r@ == Self::known(),
    {
        proof {
            lemma_low_places();
        }
        DynamicFlags { bits: 0x3F }
    }

    /// Returns the byte that holds the flags.
    #[verifier::when_used_as_spec(spec_bits)]
    pub fn bits(&self) -> (r: u8)
        ensures
            r == self.spec_bits(),
            flags_of(r) == self@,
    {
        self.bits
    }

    /// Reads a byte of the runtime as flags, if each bit that is set in it
    /// has a name.
    pub fn from_bits(bits: u8) -> (r: Option<Self>)
        ensures
            match r {
                Some(flags) => flags.spec_bits() == bits && flags_of(bits).subset_of(Self::known()),
                None => !flags_of(bits).subset_of(Self::known()),
            },
    {
        proof {
            lemma_low_places();
            lemma_subset(0x3F, bits);
        }
        if 0x3F & bits == bits {
            Some(DynamicFlags { bits })
        } else {
            None
        }
    }

    /// Reads a byte of the runtime as flags, and leaves out the bits that
    /// have no name.
    pub fn from_bits_truncate(bits: u8) -> (r: Self)
        ensures
            r@ == flags_of(bits).intersect(Self::known()),
    {
        proof {
            lemma_low_places();
            lemma_intersection(bits, 0x3F);
        }
        DynamicFlags { bits: bits & 0x3F }
    }

    /// Reads a byte of the runtime as flags, and keeps every bit of it.
    pub fn from_bits_retain(bits: u8) -> (r: Self)
        ensures
            r.spec_bits() == bits,
            r@ == flags_of(bits),
    {
        DynamicFlags { bits }
    }

    /// Returns `true` if no flag is set.
    pub fn is_empty(&self) -> (r: bool)
        ensures
            r == (self@ == Set::<nat>::empty()),
    {
        proof {
            lemma_empty(self.bits);
        }
        self.bits == 0
    }

    /// Returns `true` if every flag that has a name is set.
    pub fn is_all(&self) -> (r: bool)
        ensures
            r == Self::known().subset_of(self@),
    {
        proof {
            lemma_low_places();
            lemma_subset(self.bits, 0x3F);
        }
        self.bits & 0x3F == 0x3F
    }

    /// Returns `true` if some flag is set both in `self` and in `other`.
    pub fn intersects(&self, other: Self) -> (r: bool)
        ensures
            r == !self@.disjoint(other@),
    {
        proof {
            lemma_intersection(self.bits, other.bits);
            lemma_empty(self.bits & other.bits);
            lemma_disjoint(self@, other@);
        }
        self.bits & other.bits != 0
    }

    /// Returns `true` if every flag that is set in `other` is set in `self`.
    pub fn contains(&self, other: Self) -> (r: bool)
        ensures
            r == other@.subset_of(self@),
    {
        proof {
            lemma_subset(self.bits, other.bits);
        }
        self.bits & other.bits == other.bits
    }
}

} // verus!
