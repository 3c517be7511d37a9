//! Permission bitsets, as the platform hands them out with an interaction.

use vstd::prelude::*;

verus! {

/// Every permission bit that is defined: bits 0 to 42, 45 and 46.
pub const ALL_PERMISSION_BITS: u64 = 0x67ff_ffff_ffff;

/// Whether `bits` holds defined permission bits only.
pub open spec fn known_bits(bits: u64) -> bool {
    bits & !ALL_PERMISSION_BITS == 0
}

/// A set of permissions, one bit each. Only defined bits are ever set.
#[derive(Clone, Copy, Debug, PartialEq, Eq)]
pub struct Permissions {
    bits: u64,
}

impl View for Permissions {
    type V = u64;

    closed spec fn view(&self) -> u64 {
        self.bits
    }
}

/// `Permissions::all` of twilight_model, as raw bits. That set is the union
/// of the flags which twilight_model defines, and the contract claims that
/// these are exactly the bits of `ALL_PERMISSION_BITS`.
#[verifier::external_body]
fn all_defined_bits() -> (bits: u64)
    ensures
        bits == ALL_PERMISSION_BITS,
{
    twilight_model::guild::Permissions::all().bits()
}

impl Permissions {
    /// Only defined bits are set.
    #[verifier::type_invariant]
    pub closed spec fn wf(&self) -> bool {
        known_bits(self.bits)
    }

    /// The set without any permission.
    pub fn empty() -> (p: Permissions)
        ensures
            p@ == 0,
            p.wf(),
    {
        assert(known_bits(0)) by (bit_vector);
        Permissions { bits: 0 }
    }

    /// The set of every defined permission.
    pub fn all() -> (p: Permissions)
        ensures
            p@ == ALL_PERMISSION_BITS,
            p.wf(),
    {
        let bits = all_defined_bits();
        assert(known_bits(ALL_PERMISSION_BITS)) by (bit_vector);
        Permissions { bits }
    }

    /// The set with exactly the bits of `bits`, if all of them are defined.
    pub fn from_bits(bits: u64) -> (p: Option<Permissions>)
        ensures
            p is Some <==> known_bits(bits),
            p matches Some(q) ==> q@ == bits && q.wf(),
    {
        if bits & !ALL_PERMISSION_BITS == 0 {
            Some(Permissions { bits })
        } else {
            None
        }
    }

    /// The set with the defined bits of `bits`; the others are dropped.
    pub fn from_bits_truncate(bits: u64) -> (p: Permissions)
        ensures
            p@ == bits & ALL_PERMISSION_BITS,
            p.wf(),
    {
        let kept = bits & ALL_PERMISSION_BITS;
        assert(known_bits(bits & ALL_PERMISSION_BITS)) by (bit_vector);
        Permissions { bits: kept }
    }

    /// The raw bits.
    pub fn bits(&self) -> (bits: u64)
        ensures
            bits == self@,
            known_bits(bits),
    {
        proof {
            use_type_invariant(self);
        }
        self.bits
    }

    /// Whether no permission is in the set.
    pub fn is_empty(&self) -> (empty: bool)
        ensures
            empty == (self@ == 0),
    {
        self.bits == 0
    }

    /// The permissions of the set that are not in `other`.
    pub fn difference(&self, other: Permissions) -> (p: Permissions)
        ensures
            p@ == self@ & !other@,
            p.wf(),
    {
        proof {
            use_type_invariant(self);
        }
        let a = self.bits;
        let b = other.bits;
        assert(known_bits(a & !b)) by (bit_vector)
            requires
                known_bits(a),
        ;
        Permissions { bits: a & !b }
    }
}

/// A valid set holds defined bits only.
pub proof fn lemma_valid_bits_are_known(permissions: Permissions)
    requires
        permissions.wf(),
    ensures
        known_bits(permissions@),
{
}

} // verus!
