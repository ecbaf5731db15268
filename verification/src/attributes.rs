//! Memory attributes: what a mapping forbids.

use vstd::prelude::*;

verus! {

/// A set of memory attributes, one bit each.
#[derive(Clone, Copy, Debug, PartialEq, Eq, Structural)]
pub struct MemoryAttributes {
    pub bits: u64,
}

#[allow(non_snake_case)]
impl MemoryAttributes {
    /// The memory cannot be read: the mapping is not present.
    #[verifier::allow_in_spec]
    pub fn ReadProtect() -> Self
        returns
            (MemoryAttributes { bits: 0x2000 }),
    {
        MemoryAttributes { bits: 0x2000 }
    }

    /// The memory cannot be executed.
    #[verifier::allow_in_spec]
    pub fn ExecuteProtect() -> Self
        returns
            (MemoryAttributes { bits: 0x4000 }),
    {
        MemoryAttributes { bits: 0x4000 }
    }

    /// The memory cannot be written.
    #[verifier::allow_in_spec]
    pub fn ReadOnly() -> Self
        returns
            (MemoryAttributes { bits: 0x20000 }),
    {
        MemoryAttributes { bits: 0x20000 }
    }

    /// The memory is reserved to supervisor code.
    #[verifier::allow_in_spec]
    pub fn Supervisor() -> Self
        returns
            (MemoryAttributes { bits: 0x200000 }),
    {
        MemoryAttributes { bits: 0x200000 }
    }

    /// No attribute at all.
    #[verifier::allow_in_spec]
    pub fn empty() -> Self
        returns
            (MemoryAttributes { bits: 0 }),
    {
        MemoryAttributes { bits: 0 }
    }

    /// Whether every attribute of `other` is in `self`.
    #[verifier::allow_in_spec]
    pub fn contains(&self, other: Self) -> bool
        returns
            self.bits & other.bits == other.bits,
    {
        self.bits & other.bits == other.bits
    }

    /// The attributes that are in `self`, in `other` or in both.
    #[verifier::allow_in_spec]
    pub fn union(self, other: Self) -> Self
        returns
            (MemoryAttributes { bits: self.bits | other.bits }),
    {
        MemoryAttributes { bits: self.bits | other.bits }
    }

    /// The attributes that are both in `self` and in `other`.
    pub open spec fn intersection(self, other: Self) -> Self {
        MemoryAttributes { bits: self.bits & other.bits }
    }
}

impl core::ops::BitOr for MemoryAttributes {
    type Output = Self;

    fn bitor(self, other: Self) -> (r: Self) {
        self.union(other)
    }
}

impl vstd::std_specs::ops::BitOrSpecImpl for MemoryAttributes {
    open spec fn obeys_bitor_spec() -> bool {
        true
    }

    open spec fn bitor_req(self, other: Self) -> bool {
        true
    }

    open spec fn bitor_spec(self, other: Self) -> Self {
        self.union(other)
    }
}

impl core::ops::BitOrAssign for MemoryAttributes {
    fn bitor_assign(&mut self, other: Self)
        ensures
            *final(self) == old(self).union(other),
    {
        *self = self.union(other);
    }
}

/// Law: each attribute is one bit of the set.
pub proof fn lemma_attribute_bits(attributes: MemoryAttributes)
    ensures
        attributes.contains(MemoryAttributes::ReadProtect()) <==> attributes.bits & 0x2000 != 0,
        attributes.contains(MemoryAttributes::ExecuteProtect()) <==> attributes.bits & 0x4000 != 0,
        attributes.contains(MemoryAttributes::ReadOnly()) <==> attributes.bits & 0x2_0000 != 0,
        attributes.contains(MemoryAttributes::Supervisor()) <==> attributes.bits & 0x20_0000 != 0,
        attributes.contains(MemoryAttributes::empty()),
{
    let a: u64 = attributes.bits;
    assert({
        &&& a & 0x2000 == 0x2000 <==> a & 0x2000 != 0
        &&& a & 0x4000 == 0x4000 <==> a & 0x4000 != 0
        &&& a & 0x2_0000 == 0x2_0000 <==> a & 0x2_0000 != 0
        &&& a & 0x20_0000 == 0x20_0000 <==> a & 0x20_0000 != 0
        &&& a & 0 == 0
    }) by (bit_vector);
}

/// Law: a union holds what either set holds and nothing else, and a set contains a union exactly
/// if it contains both parts.
pub proof fn lemma_union(a: MemoryAttributes, b: MemoryAttributes, c: MemoryAttributes)
    ensures
        a.union(b).contains(a),
        a.union(b).contains(b),
        c.contains(a.union(b)) <==> c.contains(a) && c.contains(b),
        a.union(b) == b.union(a),
        a.union(MemoryAttributes::empty()) == a,
{
    let x: u64 = a.bits;
    let y: u64 = b.bits;
    let z: u64 = c.bits;
    assert({
        &&& (x | y) & x == x
        &&& (x | y) & y == y
        &&& z & (x | y) == x | y <==> z & x == x && z & y == y
        &&& x | y == y | x
        &&& x | 0 == x
    }) by (bit_vector);
}

} // verus!
