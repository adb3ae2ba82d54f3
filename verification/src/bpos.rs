//! Key positions and their total order.

use vstd::prelude::*;

verus! {

/// A coordinate in a keyspace: inode first, then offset, then snapshot.
#[derive(Clone, Copy, Debug, PartialEq, Eq, Structural)]
pub struct Bpos {
    pub inode: u64,
    pub offset: u64,
    pub snapshot: u32,
}

/// The rank of the greatest position.
pub open spec fn rank_max() -> int {
    0xffff_ffff_ffff_ffff_ffff_ffff_ffff_ffff_ffff_ffffint
}

impl View for Bpos {
    type V = int;

    /// The rank of the position in the total order: the three fields read as
    /// one 160-bit number.
    open spec fn view(&self) -> int {
        self.inode as int * 0x1_0000_0000_0000_0000_0000_0000int
            + self.offset as int * 0x1_0000_0000int
            + self.snapshot as int
    }
}

impl Bpos {
    /// The least position.
    pub open spec fn spec_min() -> Bpos {
        Bpos { inode: 0, offset: 0, snapshot: 0 }
    }

    /// The greatest position, snapshot field included.
    pub open spec fn spec_max() -> Bpos {
        Bpos { inode: 0xffff_ffff_ffff_ffff, offset: 0xffff_ffff_ffff_ffff, snapshot: 0xffff_ffff }
    }

    #[verifier::when_used_as_spec(spec_min)]
    pub fn min() -> (p: Bpos)
        ensures
            p == Bpos::spec_min(),
    {
        Bpos { inode: 0, offset: 0, snapshot: 0 }
    }

    #[verifier::when_used_as_spec(spec_max)]
    pub fn max() -> (p: Bpos)
        ensures
            p == Bpos::spec_max(),
    {
        Bpos { inode: u64::MAX, offset: u64::MAX, snapshot: u32::MAX }
    }

    pub fn new(inode: u64, offset: u64, snapshot: u32) -> (p: Bpos)
        ensures
            p == (Bpos { inode, offset, snapshot }),
    {
        Bpos { inode, offset, snapshot }
    }

    /// Whether `self` comes strictly before `other`.
    pub fn lt(&self, other: &Bpos) -> (r: bool)
        ensures
            r == (self@ < other@),
    {
        if self.inode != other.inode {
            self.inode < other.inode
        } else if self.offset != other.offset {
            self.offset < other.offset
        } else {
            self.snapshot < other.snapshot
        }
    }

    /// Whether `self` comes before `other` or is `other`.
    pub fn le(&self, other: &Bpos) -> (r: bool)
        ensures
            r == (self@ <= other@),
    {
        !other.lt(self)
    }

    /// The position that directly follows `self`, if there is one.
    pub fn successor(&self) -> (r: Option<Bpos>)
        ensures
            *self == Bpos::max() <==> r is None,
            r matches Some(n) ==> n@ == self@ + 1,
    {
        if self.snapshot < u32::MAX {
            Some(Bpos { inode: self.inode, offset: self.offset, snapshot: self.snapshot + 1 })
        } else if self.offset < u64::MAX {
            Some(Bpos { inode: self.inode, offset: self.offset + 1, snapshot: 0 })
        } else if self.inode < u64::MAX {
            Some(Bpos { inode: self.inode + 1, offset: 0, snapshot: 0 })
        } else {
            None
        }
    }
}

/// Two positions have the same rank only if they are the same position.
pub proof fn lemma_rank_injective(a: Bpos, b: Bpos)
    ensures
        a@ == b@ <==> a == b,
{
}

/// Every rank lies between that of the least position, which is zero, and
/// that of the greatest.
pub proof fn lemma_rank_bounds(a: Bpos)
    ensures
        Bpos::min()@ == 0,
        Bpos::max()@ == rank_max(),
        0 <= a@ <= rank_max(),
{
}

} // verus!
