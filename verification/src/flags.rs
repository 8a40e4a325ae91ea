//! Permission bits carried by a capability.
use vstd::prelude::*;

verus! {

/// Read permission: a capability without it cannot be invoked.
pub const FLAG_READ: u32 = 0b00001;
/// Write permission.
pub const FLAG_WRITE: u32 = 0b00010;
/// Execute permission.
pub const FLAG_EXECUTE: u32 = 0b00100;
/// Permission to hand out a copy of the capability.
pub const FLAG_SHARE: u32 = 0b01000;
/// Permission to move the capability away.
pub const FLAG_TRANSFER: u32 = 0b10000;
/// Every permission bit at once.
pub const FLAG_ALL: u32 = 0b11111;

/// A set of permissions, kept as the bits of a `u32`.
/// Only the five permission bits are ever set.
#[derive(Clone, Copy, Debug, PartialEq, Eq, Structural)]
pub struct CapabilityFlags {
    bits: u32,
}

/// The bits of `a` include every bit of `b`.
pub open spec fn bits_contain(a: u32, b: u32) -> bool {
    a & b == b
}

/// No bit outside the five permission bits is set in `b`.
pub open spec fn permission_bits(b: u32) -> bool {
    b & !FLAG_ALL == 0
}

impl View for CapabilityFlags {
    type V = u32;

    closed spec fn view(&self) -> u32 {
        self.bits
    }
}

impl CapabilityFlags {
    /// The set holds only permission bits.
    pub open spec fn wf(self) -> bool {
        permission_bits(self@)
    }

    /// Every set of permissions holds only permission bits.
    #[verifier::type_invariant]
    closed spec fn inv(self) -> bool {
        self.wf()
    }

    /// Every permission of `other` is in `self`.
    pub open spec fn has(self, other: CapabilityFlags) -> bool {
        bits_contain(self@, other@)
    }

    proof fn lemma_wf_literal(b: u32)
        requires b <= FLAG_ALL,
        ensures permission_bits(b),
    {
        assert(b <= FLAG_ALL ==> b & !FLAG_ALL == 0) by (bit_vector);
    }

    fn from_literal(b: u32) -> (r: Self)
        requires b <= FLAG_ALL,
        ensures r@ == b, r.wf(),
    {
        proof { Self::lemma_wf_literal(b); }
        CapabilityFlags { bits: b }
    }

    /// The empty set.
    pub fn empty() -> (r: Self)
        ensures r@ == 0, r.wf(),
    {
        Self::from_literal(0)
    }

    /// Every permission.
    pub fn all() -> (r: Self)
        ensures r@ == FLAG_ALL, r.wf(),
    {
        Self::from_literal(FLAG_ALL)
    }

    /// The read permission alone.
    pub fn read() -> (r: Self)
        ensures r@ == FLAG_READ, r.wf(),
    {
        Self::from_literal(FLAG_READ)
    }

    /// The write permission alone.
    pub fn write() -> (r: Self)
        ensures r@ == FLAG_WRITE, r.wf(),
    {
        Self::from_literal(FLAG_WRITE)
    }

    /// The execute permission alone.
    pub fn execute() -> (r: Self)
        ensures r@ == FLAG_EXECUTE, r.wf(),
    {
        Self::from_literal(FLAG_EXECUTE)
    }

    /// The share permission alone.
    pub fn share() -> (r: Self)
        ensures r@ == FLAG_SHARE, r.wf(),
    {
        Self::from_literal(FLAG_SHARE)
    }

    /// The transfer permission alone.
    pub fn transfer() -> (r: Self)
        ensures r@ == FLAG_TRANSFER, r.wf(),
    {
        Self::from_literal(FLAG_TRANSFER)
    }

    /// The raw bits.
    pub fn bits(&self) -> (r: u32)
        ensures r == self@, permission_bits(r),
    {
        proof { use_type_invariant(self); }
        self.bits
    }

    /// The set with exactly the given bits, or `None` where a bit is not a permission.
    pub fn from_bits(bits: u32) -> (r: Option<Self>)
        ensures
            r is Some <==> permission_bits(bits),
            r matches Some(f) ==> f@ == bits && f.wf(),
    {
        if bits & !FLAG_ALL == 0 {
            Some(CapabilityFlags { bits })
        } else {
            None
        }
    }

    /// The set with the permission bits of `bits`; other bits are dropped.
    pub fn from_bits_truncate(bits: u32) -> (r: Self)
        ensures r@ == bits & FLAG_ALL, r.wf(),
    {
        let b = bits & FLAG_ALL;
        assert((bits & FLAG_ALL) & !FLAG_ALL == 0) by (bit_vector);
        CapabilityFlags { bits: b }
    }

    /// Whether the set is empty.
    pub fn is_empty(&self) -> (r: bool)
        ensures r == (self@ == 0),
    {
        self.bits == 0
    }

    /// Whether every permission of `other` is also in `self`.
    pub fn contains(&self, other: Self) -> (r: bool)
        ensures r == self.has(other),
    {
        self.bits & other.bits == other.bits
    }

    /// Whether the two sets share a permission.
    pub fn intersects(&self, other: Self) -> (r: bool)
        ensures r == (self@ & other@ != 0),
    {
        self.bits & other.bits != 0
    }

    /// The permissions in either set.
    pub fn union(self, other: Self) -> (r: Self)
        ensures r@ == self@ | other@, r.wf(),
    {
        proof {
            use_type_invariant(&self);
            use_type_invariant(&other);
        }
        let a = self.bits;
        let b = other.bits;
        assert((a | b) & !FLAG_ALL == 0) by (bit_vector)
            requires a & !FLAG_ALL == 0, b & !FLAG_ALL == 0;
        CapabilityFlags { bits: a | b }
    }

    /// The permissions in both sets.
    pub fn intersection(self, other: Self) -> (r: Self)
        ensures r@ == self@ & other@, r.wf(),
    {
        proof { use_type_invariant(&self); }
        let a = self.bits;
        let b = other.bits;
        assert((a & b) & !FLAG_ALL == 0) by (bit_vector)
            requires a & !FLAG_ALL == 0;
        CapabilityFlags { bits: a & b }
    }

    /// The permissions of `self` that `other` does not hold.
    pub fn difference(self, other: Self) -> (r: Self)
        ensures r@ == self@ & !other@, r.wf(),
    {
        proof { use_type_invariant(&self); }
        let a = self.bits;
        let b = other.bits;
        assert((a & !b) & !FLAG_ALL == 0) by (bit_vector)
            requires a & !FLAG_ALL == 0;
        CapabilityFlags { bits: a & !b }
    }

    /// Adds the permissions of `other`.
    pub fn insert(&mut self, other: Self)
        ensures final(self)@ == old(self)@ | other@, final(self).wf(),
    {
        *self = self.union(other);
    }
}

/// Taking the common permissions of two sets never yields a permission that
/// the first set lacks, nor one that the second lacks.
pub proof fn lemma_intersection_within(a: u32, b: u32)
    ensures
        bits_contain(a, a & b),
        bits_contain(b, a & b),
{
    assert(a & (a & b) == a & b) by (bit_vector);
    assert(b & (a & b) == a & b) by (bit_vector);
}

/// The union of two sets contains each of them, and is the same in either order.
pub proof fn lemma_union_covers(a: u32, b: u32)
    ensures
        bits_contain(a | b, a),
        bits_contain(a | b, b),
        a | b == b | a,
{
    assert((a | b) & a == a) by (bit_vector);
    assert((a | b) & b == b) by (bit_vector);
    assert(a | b == b | a) by (bit_vector);
}

/// Containment of permission sets is transitive.
pub proof fn lemma_contain_transitive(a: u32, b: u32, c: u32)
    requires bits_contain(a, b), bits_contain(b, c),
    ensures bits_contain(a, c),
{
    assert(a & b == b && b & c == c ==> a & c == c) by (bit_vector);
}

/// Every set contains itself and the empty set.
pub proof fn lemma_contain_reflexive(a: u32)
    ensures bits_contain(a, a), bits_contain(a, 0),
{
    assert(a & a == a) by (bit_vector);
    assert(a & 0 == 0) by (bit_vector);
}

} // verus!
