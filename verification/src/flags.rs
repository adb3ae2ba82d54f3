//! Iteration modes: a set of named capabilities carried as sixteen bits.

use vstd::prelude::*;

verus! {

/// One iteration capability.
#[derive(Clone, Copy, Debug, PartialEq, Eq, Structural)]
pub enum BtreeIterFlag {
    Slots,
    AllLevels,
    Intent,
    Prefetch,
    IsExtents,
    NotExtents,
    Cached,
    KeyCached,
    WithUpdates,
    WithJournal,
    InternalAllSnapshots,
    AllSnapshots,
    FilterSnapshots,
    Nopreserve,
    CachedNofill,
    KeyCacheFill,
}

impl BtreeIterFlag {
    /// The bit that stands for the capability.
    pub open spec fn bit(self) -> u16 {
        match self {
            BtreeIterFlag::Slots => 0,
            BtreeIterFlag::AllLevels => 1,
            BtreeIterFlag::Intent => 2,
            BtreeIterFlag::Prefetch => 3,
            BtreeIterFlag::IsExtents => 4,
            BtreeIterFlag::NotExtents => 5,
            BtreeIterFlag::Cached => 6,
            BtreeIterFlag::KeyCached => 7,
            BtreeIterFlag::WithUpdates => 8,
            BtreeIterFlag::WithJournal => 9,
            BtreeIterFlag::InternalAllSnapshots => 10,
            BtreeIterFlag::AllSnapshots => 11,
            BtreeIterFlag::FilterSnapshots => 12,
            BtreeIterFlag::Nopreserve => 13,
            BtreeIterFlag::CachedNofill => 14,
            BtreeIterFlag::KeyCacheFill => 15,
        }
    }

    /// The capability that bit `i` stands for.
    pub open spec fn of_bit(i: u16) -> BtreeIterFlag {
        if i == 0 {
            BtreeIterFlag::Slots
        } else if i == 1 {
            BtreeIterFlag::AllLevels
        } else if i == 2 {
            BtreeIterFlag::Intent
        } else if i == 3 {
            BtreeIterFlag::Prefetch
        } else if i == 4 {
            BtreeIterFlag::IsExtents
        } else if i == 5 {
            BtreeIterFlag::NotExtents
        } else if i == 6 {
            BtreeIterFlag::Cached
        } else if i == 7 {
            BtreeIterFlag::KeyCached
        } else if i == 8 {
            BtreeIterFlag::WithUpdates
        } else if i == 9 {
            BtreeIterFlag::WithJournal
        } else if i == 10 {
            BtreeIterFlag::InternalAllSnapshots
        } else if i == 11 {
            BtreeIterFlag::AllSnapshots
        } else if i == 12 {
            BtreeIterFlag::FilterSnapshots
        } else if i == 13 {
            BtreeIterFlag::Nopreserve
        } else if i == 14 {
            BtreeIterFlag::CachedNofill
        } else {
            BtreeIterFlag::KeyCacheFill
        }
    }

    /// The number of the capability's bit.
    pub fn index(self) -> (i: u16)
        ensures
            i == self.bit(),
            i < 16,
    {
        match self {
            BtreeIterFlag::Slots => 0,
            BtreeIterFlag::AllLevels => 1,
            BtreeIterFlag::Intent => 2,
            BtreeIterFlag::Prefetch => 3,
            BtreeIterFlag::IsExtents => 4,
            BtreeIterFlag::NotExtents => 5,
            BtreeIterFlag::Cached => 6,
            BtreeIterFlag::KeyCached => 7,
            BtreeIterFlag::WithUpdates => 8,
            BtreeIterFlag::WithJournal => 9,
            BtreeIterFlag::InternalAllSnapshots => 10,
            BtreeIterFlag::AllSnapshots => 11,
            BtreeIterFlag::FilterSnapshots => 12,
            BtreeIterFlag::Nopreserve => 13,
            BtreeIterFlag::CachedNofill => 14,
            BtreeIterFlag::KeyCacheFill => 15,
        }
    }
}

/// Whether the bits `bits` hold the capability `f`.
pub open spec fn has_flag(bits: u16, f: BtreeIterFlag) -> bool {
    bits & (1u16 << f.bit()) != 0
}

/// A set of iteration capabilities.
#[derive(Clone, Copy, Debug, PartialEq, Eq, Structural)]
pub struct BtreeIterFlags {
    bits: u16,
}

impl View for BtreeIterFlags {
    type V = Set<BtreeIterFlag>;

    open spec fn view(&self) -> Set<BtreeIterFlag> {
        Set::new(|f: BtreeIterFlag| has_flag(self.spec_bits(), f))
    }
}

proof fn lemma_bit_or(a: u16, b: u16, i: u16)
    by (bit_vector)
    requires
        i < 16,
    ensures
        ((a | b) & (1u16 << i) != 0) == ((a & (1u16 << i) != 0) || (b & (1u16 << i) != 0)),
{
}

proof fn lemma_bit_and(a: u16, b: u16, i: u16)
    by (bit_vector)
    requires
        i < 16,
    ensures
        ((a & b) & (1u16 << i) != 0) == ((a & (1u16 << i) != 0) && (b & (1u16 << i) != 0)),
{
}

proof fn lemma_bit_and_not(a: u16, b: u16, i: u16)
    by (bit_vector)
    requires
        i < 16,
    ensures
        ((a & !b) & (1u16 << i) != 0) == ((a & (1u16 << i) != 0) && !(b & (1u16 << i) != 0)),
{
}

proof fn lemma_bit_not(a: u16, i: u16)
    by (bit_vector)
    requires
        i < 16,
    ensures
        ((!a) & (1u16 << i) != 0) == !(a & (1u16 << i) != 0),
{
}

proof fn lemma_bit_single(i: u16, j: u16)
    by (bit_vector)
    requires
        i < 16,
        j < 16,
    ensures
        ((1u16 << i) & (1u16 << j) != 0) == (i == j),
{
}

proof fn lemma_bit_some(x: u16)
    by (bit_vector)
    requires
        x != 0,
    ensures
        x & (1u16 << 0u16) != 0 || x & (1u16 << 1u16) != 0 || x & (1u16 << 2u16) != 0 || x & (1u16
            << 3u16) != 0 || x & (1u16 << 4u16) != 0 || x & (1u16 << 5u16) != 0 || x & (1u16
            << 6u16) != 0 || x & (1u16 << 7u16) != 0 || x & (1u16 << 8u16) != 0 || x & (1u16
            << 9u16) != 0 || x & (1u16 << 10u16) != 0 || x & (1u16 << 11u16) != 0 || x & (1u16
            << 12u16) != 0 || x & (1u16 << 13u16) != 0 || x & (1u16 << 14u16) != 0 || x & (1u16
            << 15u16) != 0,
{
}

/// Bits that are not all zero hold some capability.
proof fn lemma_nonzero_has_flag(x: u16) -> (f: BtreeIterFlag)
    requires
        x != 0,
    ensures
        has_flag(x, f),
{
    lemma_bit_some(x);
    let i: u16 = if x & (1u16 << 0u16) != 0 {
        0
    } else if x & (1u16 << 1u16) != 0 {
        1
    } else if x & (1u16 << 2u16) != 0 {
        2
    } else if x & (1u16 << 3u16) != 0 {
        3
    } else if x & (1u16 << 4u16) != 0 {
        4
    } else if x & (1u16 << 5u16) != 0 {
        5
    } else if x & (1u16 << 6u16) != 0 {
        6
    } else if x & (1u16 << 7u16) != 0 {
        7
    } else if x & (1u16 << 8u16) != 0 {
        8
    } else if x & (1u16 << 9u16) != 0 {
        9
    } else if x & (1u16 << 10u16) != 0 {
        10
    } else if x & (1u16 << 11u16) != 0 {
        11
    } else if x & (1u16 << 12u16) != 0 {
        12
    } else if x & (1u16 << 13u16) != 0 {
        13
    } else if x & (1u16 << 14u16) != 0 {
        14
    } else {
        15
    };
    BtreeIterFlag::of_bit(i)
}

impl BtreeIterFlags {
    /// The bits that carry the set.
    pub closed spec fn spec_bits(&self) -> u16 {
        self.bits
    }

    /// Two sets with the same members have the same bits, and the reverse.
    pub proof fn lemma_view_injective(a: BtreeIterFlags, b: BtreeIterFlags)
        ensures
            a@ == b@ <==> a == b,
            a == b <==> a.spec_bits() == b.spec_bits(),
    {
        if a@ == b@ && a.bits != b.bits {
            let ab: u16 = a.bits;
            let bb: u16 = b.bits;
            let x: u16 = ab ^ bb;
            assert(x != 0) by (bit_vector)
                requires
                    x == ab ^ bb,
                    ab != bb,
            ;
            let f = lemma_nonzero_has_flag(x);
            let i: u16 = f.bit();
            assert((ab & (1u16 << i) != 0) != (bb & (1u16 << i) != 0)) by (bit_vector)
                requires
                    x == ab ^ bb,
                    x & (1u16 << i) != 0,
                    i < 16,
            ;
            assert(a@.contains(f) == has_flag(a.bits, f));
            assert(b@.contains(f) == has_flag(b.bits, f));
        }
    }

    /// The set without any capability.
    pub fn empty() -> (r: BtreeIterFlags)
        ensures
            r@ == Set::<BtreeIterFlag>::empty(),
            r.spec_bits() == 0,
    {
        let r = BtreeIterFlags { bits: 0 };
        proof {
            assert forall|f: BtreeIterFlag| !has_flag(0u16, f) by {
                let i: u16 = f.bit();
                assert(0u16 & (1u16 << i) == 0) by (bit_vector);
            }
            assert(r@ =~= Set::<BtreeIterFlag>::empty());
        }
        r
    }

    /// The set of every capability.
    pub fn all() -> (r: BtreeIterFlags)
        ensures
            r@ == Set::<BtreeIterFlag>::full(),
            r.spec_bits() == 0xffff,
    {
        let r = BtreeIterFlags { bits: 0xffff };
        proof {
            assert forall|f: BtreeIterFlag| has_flag(0xffffu16, f) by {
                let i: u16 = f.bit();
                assert(0xffffu16 & (1u16 << i) != 0) by (bit_vector)
                    requires
                        i < 16,
                ;
            }
            assert(r@ =~= Set::<BtreeIterFlag>::full());
        }
        r
    }

    /// The set that holds `f` and nothing else.
    pub fn only(f: BtreeIterFlag) -> (r: BtreeIterFlags)
        ensures
            r@ == set![f],
            r.spec_bits() == 1u16 << f.bit(),
    {
        let i = f.index();
        let r = BtreeIterFlags { bits: 1u16 << i };
        proof {
            assert forall|g: BtreeIterFlag| has_flag(r.bits, g) == (g == f) by {
                lemma_bit_single(f.bit(), g.bit());
            }
            assert(r@ =~= set![f]);
        }
        r
    }

    /// The bits as the engine takes them.
    pub fn bits(&self) -> (b: u16)
        ensures
            b == self.spec_bits(),
    {
        self.bits
    }

    /// The set that `bits` carry. Each of the sixteen bits names a
    /// capability, so every value is a set.
    pub fn from_bits(bits: u16) -> (r: Option<BtreeIterFlags>)
        ensures
            r matches Some(s) && s.spec_bits() == bits && s@ == Set::new(
                |f: BtreeIterFlag| has_flag(bits, f),
            ),
    {
        if (bits & !0xffffu16) == 0 {
            Some(BtreeIterFlags { bits })
        } else {
            proof {
                assert(bits & !0xffffu16 == 0) by (bit_vector);
            }
            None
        }
    }

    /// Whether the set holds `f`.
    pub fn has(&self, f: BtreeIterFlag) -> (r: bool)
        ensures
            r == self@.contains(f),
    {
        let i = f.index();
        self.bits & (1u16 << i) != 0
    }

    /// Whether the set holds nothing.
    pub fn is_empty(&self) -> (r: bool)
        ensures
            r == (self@ == Set::<BtreeIterFlag>::empty()),
    {
        proof {
            if self.bits != 0 {
                let f = lemma_nonzero_has_flag(self.bits);
                assert(self@.contains(f));
            } else {
                assert forall|f: BtreeIterFlag| !has_flag(0u16, f) by {
                    let i: u16 = f.bit();
                    assert(0u16 & (1u16 << i) == 0) by (bit_vector);
                }
                assert(self@ =~= Set::<BtreeIterFlag>::empty());
            }
        }
        self.bits == 0
    }

    /// Whether the two sets share a capability.
    pub fn intersects(&self, other: BtreeIterFlags) -> (r: bool)
        ensures
            r == !self@.disjoint(other@),
    {
        proof {
            let x: u16 = self.bits & other.bits;
            if x != 0 {
                let f = lemma_nonzero_has_flag(x);
                lemma_bit_and(self.bits, other.bits, f.bit());
                assert(self@.contains(f) && other@.contains(f));
            } else {
                assert forall|f: BtreeIterFlag| !(self@.contains(f) && other@.contains(f)) by {
                    lemma_bit_and(self.bits, other.bits, f.bit());
                    let i: u16 = f.bit();
                    assert(0u16 & (1u16 << i) == 0) by (bit_vector);
                }
            }
        }
        (self.bits & other.bits) != 0
    }

    /// Whether every capability of `other` is in the set.
    pub fn contains(&self, other: BtreeIterFlags) -> (r: bool)
        ensures
            r == other@.subset_of(self@),
    {
        proof {
            let a: u16 = self.bits;
            let b: u16 = other.bits;
            let x: u16 = b & !a;
            assert((a & b == b) == (x == 0)) by (bit_vector)
                requires
                    x == b & !a,
            ;
            if x != 0 {
                let f = lemma_nonzero_has_flag(x);
                lemma_bit_and_not(b, a, f.bit());
                assert(other@.contains(f) && !self@.contains(f));
            } else {
                assert forall|f: BtreeIterFlag| other@.contains(f) implies self@.contains(f) by {
                    lemma_bit_and_not(b, a, f.bit());
                    let i: u16 = f.bit();
                    assert(0u16 & (1u16 << i) == 0) by (bit_vector);
                }
            }
        }
        (self.bits & other.bits) == other.bits
    }

    /// The capabilities of either set.
    pub fn union(self, other: BtreeIterFlags) -> (r: BtreeIterFlags)
        ensures
            r@ == self@.union(other@),
            r.spec_bits() == self.spec_bits() | other.spec_bits(),
    {
        let r = BtreeIterFlags { bits: self.bits | other.bits };
        proof {
            assert forall|f: BtreeIterFlag|
                r@.contains(f) == (self@.contains(f) || other@.contains(f)) by {
                lemma_bit_or(self.bits, other.bits, f.bit());
            }
            assert(r@ =~= self@.union(other@));
        }
        r
    }

    /// The capabilities of both sets.
    pub fn intersection(self, other: BtreeIterFlags) -> (r: BtreeIterFlags)
        ensures
            r@ == self@.intersect(other@),
            r.spec_bits() == self.spec_bits() & other.spec_bits(),
    {
        let r = BtreeIterFlags { bits: self.bits & other.bits };
        proof {
            assert forall|f: BtreeIterFlag|
                r@.contains(f) == (self@.contains(f) && other@.contains(f)) by {
                lemma_bit_and(self.bits, other.bits, f.bit());
            }
            assert(r@ =~= self@.intersect(other@));
        }
        r
    }

    /// The capabilities of the set that `other` lacks.
    pub fn difference(self, other: BtreeIterFlags) -> (r: BtreeIterFlags)
        ensures
            r@ == self@.difference(other@),
            r.spec_bits() == self.spec_bits() & !other.spec_bits(),
    {
        let r = BtreeIterFlags { bits: self.bits & !other.bits };
        proof {
            assert forall|f: BtreeIterFlag|
                r@.contains(f) == (self@.contains(f) && !other@.contains(f)) by {
                lemma_bit_and_not(self.bits, other.bits, f.bit());
            }
            assert(r@ =~= self@.difference(other@));
        }
        r
    }

    /// The capabilities that the set lacks.
    pub fn complement(self) -> (r: BtreeIterFlags)
        ensures
            r@ == self@.complement(),
            r.spec_bits() == !self.spec_bits(),
    {
        let r = BtreeIterFlags { bits: !self.bits };
        proof {
            assert forall|f: BtreeIterFlag| r@.contains(f) == !self@.contains(f) by {
                lemma_bit_not(self.bits, f.bit());
            }
            assert(r@ =~= self@.complement());
        }
        r
    }

    /// Adds the capabilities of `other`.
    pub fn insert(&mut self, other: BtreeIterFlags)
        ensures
            final(self)@ == old(self)@.union(other@),
    {
        let r = self.union(other);
        *self = r;
    }

    /// Takes the capabilities of `other` away.
    pub fn remove(&mut self, other: BtreeIterFlags)
        ensures
            final(self)@ == old(self)@.difference(other@),
    {
        let r = self.difference(other);
        *self = r;
    }
}

} // verus!
