//! The set of event categories that a collider takes part in.
use vstd::prelude::*;

verus! {

/// The bit of the intersection category.
pub const INTERSECTION_BIT: u32 = 0b0001;

/// The bit of the contact category.
pub const CONTACT_BIT: u32 = 0b0010;

/// The bits that stand for an event category.
pub const ALL_BITS: u32 = 0b0011;

/// `bits` holds no bit beyond the two event categories.
pub open spec fn only_known_bits(bits: u32) -> bool {
    bits & !ALL_BITS == 0
}

/// Every bit set in `part` is set in `whole`.
pub open spec fn contains_bits(whole: u32, part: u32) -> bool {
    whole & part == part
}

/// `bits` has exactly one bit set.
pub open spec fn is_single_bit(bits: u32) -> bool {
    bits != 0 && bits & ((bits - 1) as u32) == 0
}

/// Flags selecting which events the simulation reports for a collider.
///
/// Its view is the raw bit set. It never holds a bit beyond the two
/// categories: that is its type invariant.
#[derive(Clone, Copy, Debug, PartialEq, Eq, Structural, PartialOrd, Ord, Hash)]
pub struct ActiveEvents {
    bits: u32,
}

impl View for ActiveEvents {
    type V = u32;

    closed spec fn view(&self) -> u32 {
        self.bits
    }
}

proof fn lemma_known_bits_closed(x: u32, y: u32)
    by (bit_vector)
    requires
        only_known_bits(x),
        only_known_bits(y),
    ensures
        only_known_bits(x | y),
        only_known_bits(x & y),
        only_known_bits(x & !y),
{
}

impl ActiveEvents {
    #[verifier::type_invariant]
    spec fn known(self) -> bool {
        only_known_bits(self.bits)
    }

    /// The mask that reports intersections involving the collider.
    pub fn intersection_events() -> (r: Self)
        ensures
            r@ == INTERSECTION_BIT,
            is_single_bit(r@),
    {
        assert(is_single_bit(INTERSECTION_BIT) && only_known_bits(INTERSECTION_BIT)) by (bit_vector);
        ActiveEvents { bits: INTERSECTION_BIT }
    }

    /// The mask that reports contacts involving the collider.
    pub fn contact_events() -> (r: Self)
        ensures
            r@ == CONTACT_BIT,
            is_single_bit(r@),
    {
        assert(is_single_bit(CONTACT_BIT) && only_known_bits(CONTACT_BIT)) by (bit_vector);
        ActiveEvents { bits: CONTACT_BIT }
    }

    /// The mask with no category.
    pub fn empty() -> (r: Self)
        ensures
            r@ == 0,
    {
        assert(only_known_bits(0)) by (bit_vector);
        ActiveEvents { bits: 0 }
    }

    /// The mask with both categories.
    pub fn all() -> (r: Self)
        ensures
            r@ == ALL_BITS,
    {
        assert(only_known_bits(ALL_BITS)) by (bit_vector);
        ActiveEvents { bits: ALL_BITS }
    }

    /// The raw bits of the mask: never one beyond the two categories.
    pub fn bits(&self) -> (r: u32)
        ensures
            r == self@,
            only_known_bits(r),
    {
        proof {
            use_type_invariant(self);
        }
        self.bits
    }

    /// The mask with exactly `bits`, if every one of them is a category.
    pub fn from_bits(bits: u32) -> (r: Option<Self>)
        ensures
            r is Some <==> only_known_bits(bits),
            r matches Some(m) ==> m@ == bits,
    {
        if bits & !ALL_BITS == 0 {
            Some(ActiveEvents { bits })
        } else {
            None
        }
    }

    /// The mask with those of `bits` that are categories; the others are dropped.
    pub fn from_bits_truncate(bits: u32) -> (r: Self)
        ensures
            r@ == bits & ALL_BITS,
            only_known_bits(r@),
    {
        let kept = bits & ALL_BITS;
        assert(only_known_bits(kept)) by (bit_vector)
            requires
                kept == bits & ALL_BITS,
        ;
        ActiveEvents { bits: kept }
    }

    /// Whether no category is set.
    pub fn is_empty(&self) -> (r: bool)
        ensures
            r == (self@ == 0),
    {
        self.bits == 0
    }

    /// Whether both categories are set.
    pub fn is_all(&self) -> (r: bool)
        ensures
            r == (self@ == ALL_BITS),
    {
        self.bits == ALL_BITS
    }

    /// Whether every category of `other` is set in `self`.
    pub fn contains(&self, other: Self) -> (r: bool)
        ensures
            r == contains_bits(self@, other@),
    {
        self.bits & other.bits == other.bits
    }

    /// Whether `self` and `other` share a category.
    pub fn intersects(&self, other: Self) -> (r: bool)
        ensures
            r == (self@ & other@ != 0),
    {
        self.bits & other.bits != 0
    }

    /// The categories set in either mask.
    pub fn union(self, other: Self) -> (r: Self)
        ensures
            r@ == self@ | other@,
    {
        proof {
            use_type_invariant(&self);
            use_type_invariant(&other);
            lemma_known_bits_closed(self.bits, other.bits);
        }
        ActiveEvents { bits: self.bits | other.bits }
    }

    /// The categories set in both masks.
    pub fn intersection(self, other: Self) -> (r: Self)
        ensures
            r@ == self@ & other@,
    {
        proof {
            use_type_invariant(&self);
            use_type_invariant(&other);
            lemma_known_bits_closed(self.bits, other.bits);
        }
        ActiveEvents { bits: self.bits & other.bits }
    }

    /// Sets the categories of `other`.
    pub fn insert(&mut self, other: Self)
        ensures
            final(self)@ == old(self)@ | other@,
    {
        proof {
            use_type_invariant(&*self);
            use_type_invariant(&other);
            lemma_known_bits_closed(self.bits, other.bits);
        }
        *self = ActiveEvents { bits: self.bits | other.bits };
    }

    /// Clears the categories of `other`.
    pub fn remove(&mut self, other: Self)
        ensures
            final(self)@ == old(self)@ & !other@,
    {
        proof {
            use_type_invariant(&*self);
            use_type_invariant(&other);
            lemma_known_bits_closed(self.bits, other.bits);
        }
        *self = ActiveEvents { bits: self.bits & !other.bits };
    }
}

impl Default for ActiveEvents {
    /// No category: a collider reports nothing until told otherwise.
    fn default() -> (r: Self)
        ensures
            r@ == 0,
    {
        ActiveEvents::empty()
    }
}

impl core::ops::BitOr for ActiveEvents {
    type Output = Self;

    fn bitor(self, other: Self) -> (r: Self)
        ensures
            r@ == self@ | other@,
    {
        self.union(other)
    }
}

impl vstd::std_specs::ops::BitOrSpecImpl for ActiveEvents {
    open spec fn obeys_bitor_spec() -> bool {
        true
    }

    open spec fn bitor_req(self, rhs: Self) -> bool {
        true
    }

    closed spec fn bitor_spec(self, rhs: Self) -> Self {
        ActiveEvents { bits: self.bits | rhs.bits }
    }
}

/// Two masks are the same value exactly when they hold the same bits.
pub proof fn lemma_view_eq(a: ActiveEvents, b: ActiveEvents)
    ensures
        a@ == b@ <==> a == b,
{
}

proof fn lemma_single_bits_joined(x: u32, y: u32, z: u32)
    by (bit_vector)
    requires
        is_single_bit(x),
        is_single_bit(y),
        x != y,
    ensures
        contains_bits(x | y, x),
        contains_bits(x | y, y),
        is_single_bit(z) ==> (contains_bits(x | y, z) <==> (z == x || z == y)),
{
}

/// Joining two different masks of one bit each gives a mask that contains
/// both of them, and of the masks of one bit contains those two and no other.
pub proof fn lemma_union_of_two_single_bits(a: ActiveEvents, b: ActiveEvents)
    requires
        is_single_bit(a@),
        is_single_bit(b@),
        a@ != b@,
    ensures
        contains_bits(a@ | b@, a@),
        contains_bits(a@ | b@, b@),
        forall|c: u32|
            is_single_bit(c) ==> (contains_bits(a@ | b@, c) <==> (c == a@ || c == b@)),
{
    lemma_single_bits_joined(a@, b@, 0);
    assert forall|c: u32|
        is_single_bit(c) implies (contains_bits(a@ | b@, c) <==> (c == a@ || c == b@)) by {
        lemma_single_bits_joined(a@, b@, c);
    }
}

} // verus!
