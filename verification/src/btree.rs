//! Transaction contexts and the iterators that are opened on them.
//!
//! The engine does the traversal. After each call into it, its reply is
//! handed to the iterator, which decides what the caller sees and keeps
//! track of where the iterator stands.

use crate::bpos::{rank_max, Bpos};
use crate::errcode::{errptr_spec, errptr_to_result, is_err_word, Errcode};
use crate::flags::{BtreeIterFlag, BtreeIterFlags};
use std::marker::PhantomData;
use vstd::prelude::*;

verus! {

/// A handle on an open store.
#[derive(Debug, PartialEq, Eq, Structural)]
pub struct Fs {
    pub raw: usize,
}

/// The keyspaces of a store.
#[derive(Clone, Copy, Debug, PartialEq, Eq, Structural)]
pub enum BtreeId {
    Extents,
    Inodes,
    Dirents,
    Xattrs,
    Alloc,
    Quotas,
    Stripes,
    Reflink,
    Subvolumes,
    Snapshots,
    Lru,
    Freespace,
    NeedDiscard,
    Backpointers,
    BucketGens,
}

impl BtreeId {
    /// The number by which the engine knows the keyspace.
    pub open spec fn spec_index(self) -> u32 {
        match self {
            BtreeId::Extents => 0,
            BtreeId::Inodes => 1,
            BtreeId::Dirents => 2,
            BtreeId::Xattrs => 3,
            BtreeId::Alloc => 4,
            BtreeId::Quotas => 5,
            BtreeId::Stripes => 6,
            BtreeId::Reflink => 7,
            BtreeId::Subvolumes => 8,
            BtreeId::Snapshots => 9,
            BtreeId::Lru => 10,
            BtreeId::Freespace => 11,
            BtreeId::NeedDiscard => 12,
            BtreeId::Backpointers => 13,
            BtreeId::BucketGens => 14,
        }
    }

    #[verifier::when_used_as_spec(spec_index)]
    pub fn index(self) -> (i: u32)
        ensures
            i == self.spec_index(),
    {
        match self {
            BtreeId::Extents => 0,
            BtreeId::Inodes => 1,
            BtreeId::Dirents => 2,
            BtreeId::Xattrs => 3,
            BtreeId::Alloc => 4,
            BtreeId::Quotas => 5,
            BtreeId::Stripes => 6,
            BtreeId::Reflink => 7,
            BtreeId::Subvolumes => 8,
            BtreeId::Snapshots => 9,
            BtreeId::Lru => 10,
            BtreeId::Freespace => 11,
            BtreeId::NeedDiscard => 12,
            BtreeId::Backpointers => 13,
            BtreeId::BucketGens => 14,
        }
    }
}

/// A transaction context on a store. It borrows the store for as long as it
/// lives, and cannot be copied.
#[derive(Debug, PartialEq, Eq, Structural)]
pub struct BtreeTrans<'f> {
    fs: &'f Fs,
}

impl<'f> BtreeTrans<'f> {
    /// The store that the context is on.
    pub closed spec fn spec_fs(&self) -> Fs {
        *self.fs
    }

    /// Opens a context on `fs`. The context holds `fs` borrowed, so the
    /// store cannot go away under it.
    pub fn new(fs: &'f Fs) -> (trans: BtreeTrans<'f>)
        ensures
            trans.spec_fs() == *fs,
    {
        BtreeTrans { fs }
    }

    /// The store that the context is on, for as long as the store is lent.
    pub fn fs(&self) -> (fs: &'f Fs)
        ensures
            *fs == self.spec_fs(),
    {
        self.fs
    }
}

/// What the engine hands back from a peek: the word `k` is a key's address,
/// zero, or an error sentinel; `v` is the address of the key's value; `p` is
/// the position of the key at `k`, and means nothing where `k` is no address.
#[derive(Clone, Copy, Debug, PartialEq, Eq, Structural)]
pub struct RawKey {
    pub k: usize,
    pub v: usize,
    pub p: Bpos,
}

/// Whether a reply word is the address of a key: it is neither zero nor an
/// error sentinel.
pub open spec fn is_key_word(k: usize) -> bool {
    k != 0 && !is_err_word(k)
}

/// The address in a reply word, where the word is one. Only then is there a
/// key to read a position from.
pub fn key_address(k: usize) -> (a: Option<usize>)
    ensures
        a == (if is_key_word(k) {
            Some(k)
        } else {
            None
        }),
{
    match errptr_to_result(k) {
        Ok(a) => if a != 0 {
            Some(a)
        } else {
            None
        },
        Err(_) => None,
    }
}

/// A key and its value as an iterator shows them. The view borrows the
/// iterator, so it ends with the iterator's next operation.
#[derive(Clone, Copy, Debug, PartialEq, Eq)]
pub struct BkeySC<'i> {
    pub k: usize,
    pub v: usize,
    pub p: Bpos,
    pub iter: PhantomData<&'i mut Bpos>,
}

/// Where an iterator stands.
#[derive(Clone, Copy, Debug, PartialEq, Eq, Structural)]
pub enum IterState {
    /// The iterator stands at a position and may find a key.
    Positioned,
    /// The last peek found nothing, or the iterator was advanced past the
    /// greatest position.
    Exhausted,
    /// The engine reported an error. Nothing is left but to let go of the
    /// iterator.
    Errored,
}

/// What a reply is, by its word alone: an error, nothing, or a key.
pub open spec fn reply_spec(raw: RawKey) -> Result<Option<BkeySC<'static>>, Errcode> {
    match errptr_spec(raw.k) {
        Err(e) => Err(e),
        Ok(k) => if k == 0 {
            Ok(None)
        } else {
            Ok(Some(BkeySC { k: raw.k, v: raw.v, p: raw.p, iter: PhantomData }))
        },
    }
}

/// An iterator as the contracts see it.
pub struct IterView {
    /// The keyspace that the iterator walks.
    pub btree: BtreeId,
    /// The rank of the position at which the iterator stands.
    pub pos: int,
    /// The capabilities chosen when the iterator was opened.
    pub flags: Set<BtreeIterFlag>,
    pub state: IterState,
    /// The rank of the key that the last successful peek showed.
    pub last: Option<int>,
}

impl IterView {
    /// Whether keys come in key order. Slot and level traversal follow the
    /// order of the tree's nodes instead.
    pub open spec fn strict(self) -> bool {
        !self.flags.contains(BtreeIterFlag::Slots) && !self.flags.contains(
            BtreeIterFlag::AllLevels,
        )
    }

    /// Whether a key of rank `p` is a match for a peek that is bounded by
    /// `end`: it does not exceed `end` and, in key order, it is at or after
    /// the iterator's position.
    pub open spec fn in_window(self, end: int, p: int) -> bool {
        p <= end && (self.strict() ==> self.pos <= p)
    }

    /// What a peek bounded by `end` returns when the engine's reply is `raw`.
    pub open spec fn peeked(self, end: int, raw: RawKey) -> Result<
        Option<BkeySC<'static>>,
        Errcode,
    > {
        match reply_spec(raw) {
            Err(e) => Err(e),
            Ok(None) => Ok(None),
            Ok(Some(key)) => if self.state == IterState::Positioned && self.in_window(
                end,
                raw.p@,
            ) {
                Ok(Some(key))
            } else {
                Ok(None)
            },
        }
    }

    /// The iterator after that peek. An errored iterator stays as it is.
    pub open spec fn after_peek(self, end: int, raw: RawKey) -> IterView {
        if self.state == IterState::Errored {
            self
        } else {
            match self.peeked(end, raw) {
                Err(_) => IterView { state: IterState::Errored, ..self },
                Ok(None) => IterView { state: IterState::Exhausted, ..self },
                Ok(Some(key)) => IterView { last: Some(key.p@), ..self },
            }
        }
    }

    /// The iterator after an advance: it stands strictly past the last key
    /// shown, and is exhausted where no position is left past that key.
    pub open spec fn after_advance(self) -> IterView {
        match self.last {
            Some(k) if self.state == IterState::Positioned => if k >= rank_max() {
                IterView { state: IterState::Exhausted, ..self }
            } else if self.pos <= k {
                IterView { pos: k + 1, ..self }
            } else {
                self
            },
            _ => self,
        }
    }
}

/// A cursor on one keyspace, opened on a transaction context that it borrows
/// for as long as it lives.
pub struct BtreeIter<'t> {
    trans: &'t BtreeTrans<'t>,
    btree: BtreeId,
    pos: Bpos,
    flags: BtreeIterFlags,
    state: IterState,
    last: Option<Bpos>,
}

impl<'t> View for BtreeIter<'t> {
    type V = IterView;

    closed spec fn view(&self) -> IterView {
        IterView {
            btree: self.btree,
            pos: self.pos@,
            flags: self.flags@,
            state: self.state,
            last: match self.last {
                Some(k) => Some(k@),
                None => None,
            },
        }
    }
}

/// Tells apart the three things that a reply can be.
fn decode<'i>(raw: RawKey) -> (res: Result<Option<BkeySC<'i>>, Errcode>)
    ensures
        res == reply_spec(raw),
{
    match errptr_to_result(raw.k) {
        Err(e) => Err(e),
        Ok(k) => {
            if k == 0 {
                Ok(None)
            } else {
                Ok(Some(BkeySC { k: raw.k, v: raw.v, p: raw.p, iter: PhantomData }))
            }
        },
    }
}

impl<'t> BtreeIter<'t> {
    /// The context that the iterator was opened on.
    pub closed spec fn owner(&self) -> BtreeTrans<'t> {
        *self.trans
    }

    /// Opens an iterator on `trans` that walks `btree` from `pos` in the mode
    /// `flags`. The iterator holds `trans` borrowed, so it cannot be used,
    /// nor kept, once the context is gone.
    pub fn new(trans: &'t BtreeTrans<'t>, btree: BtreeId, pos: Bpos, flags: BtreeIterFlags) -> (it:
        BtreeIter<'t>)
        ensures
            it@ == (IterView {
                btree,
                pos: pos@,
                flags: flags@,
                state: IterState::Positioned,
                last: None,
            }),
            it.owner() == *trans,
    {
        BtreeIter { trans, btree, pos, flags, state: IterState::Positioned, last: None }
    }

    /// The keyspace that the iterator walks.
    pub fn btree(&self) -> (b: BtreeId)
        ensures
            b == self@.btree,
    {
        self.btree
    }

    /// The position at which the iterator stands.
    pub fn pos(&self) -> (p: Bpos)
        ensures
            p@ == self@.pos,
    {
        self.pos
    }

    /// The mode chosen when the iterator was opened.
    pub fn flags(&self) -> (f: BtreeIterFlags)
        ensures
            f@ == self@.flags,
    {
        self.flags
    }

    /// Where the iterator stands: positioned, exhausted or errored.
    pub fn state(&self) -> (s: IterState)
        ensures
            s == self@.state,
    {
        self.state
    }

    /// The position of the key that the last successful peek showed.
    pub fn last(&self) -> (k: Option<Bpos>)
        ensures
            k is Some <==> self@.last is Some,
            k matches Some(p) ==> self@.last == Some(p@),
    {
        self.last
    }

    /// The context that the iterator was opened on.
    pub fn trans(&self) -> (trans: &'t BtreeTrans<'t>)
        ensures
            *trans == self.owner(),
    {
        self.trans
    }

    /// Takes the engine's reply to a peek that was bounded by `end`, and
    /// shows the key if there is one in the window. The position stays.
    pub fn peek_upto<'i>(&'i mut self, end: Bpos, raw: RawKey) -> (res: Result<
        Option<BkeySC<'i>>,
        Errcode,
    >)
        requires
            old(self)@.state != IterState::Errored,
        ensures
            res == old(self)@.peeked(end@, raw),
            final(self)@ == old(self)@.after_peek(end@, raw),
            final(self).owner() == old(self).owner(),
            final(self)@.pos == old(self)@.pos,
            res is Err <==> is_err_word(raw.k),
            res matches Ok(Some(key)) ==> is_key_word(raw.k) && key.p@ <= end@,
            !is_err_word(raw.k) && (raw.k == 0 || raw.p@ > end@) ==> res matches Ok(None),
    {
        match decode(raw) {
            Err(e) => {
                self.state = IterState::Errored;
                Err(e)
            },
            Ok(None) => {
                self.state = IterState::Exhausted;
                Ok(None)
            },
            Ok(Some(key)) => {
                let relaxed = self.flags.has(BtreeIterFlag::Slots) || self.flags.has(
                    BtreeIterFlag::AllLevels,
                );
                let live = match self.state {
                    IterState::Positioned => true,
                    _ => false,
                };
                if live && raw.p.le(&end) && (relaxed || self.pos.le(&raw.p)) {
                    self.last = Some(raw.p);
                    Ok(Some(key))
                } else {
                    self.state = IterState::Exhausted;
                    Ok(None)
                }
            },
        }
    }

    /// A peek over the whole range: `peek_upto` with the greatest position
    /// as its bound.
    pub fn peek<'i>(&'i mut self, raw: RawKey) -> (res: Result<Option<BkeySC<'i>>, Errcode>)
        requires
            old(self)@.state != IterState::Errored,
        ensures
            res == old(self)@.peeked(rank_max(), raw),
            final(self)@ == old(self)@.after_peek(rank_max(), raw),
            final(self).owner() == old(self).owner(),
            res is Err <==> is_err_word(raw.k),
    {
        self.peek_upto(Bpos::max(), raw)
    }

    /// Takes the reply of the engine's peek that revalidates the cursor and
    /// restarts where it must. What the caller sees is decided as in `peek`.
    pub fn peek_and_restart<'i>(&'i mut self, raw: RawKey) -> (res: Result<
        Option<BkeySC<'i>>,
        Errcode,
    >)
        requires
            old(self)@.state != IterState::Errored,
        ensures
            res == old(self)@.peeked(rank_max(), raw),
            final(self)@ == old(self)@.after_peek(rank_max(), raw),
            final(self).owner() == old(self).owner(),
            res is Err <==> is_err_word(raw.k),
    {
        self.peek_upto(Bpos::max(), raw)
    }

    /// Moves the position strictly past the last key shown. Nothing happens
    /// where no key was shown yet or the iterator is exhausted.
    pub fn advance(&mut self)
        requires
            old(self)@.state != IterState::Errored,
        ensures
            final(self)@ == old(self)@.after_advance(),
            final(self).owner() == old(self).owner(),
            final(self)@.pos >= old(self)@.pos,
    {
        let live = match self.state {
            IterState::Positioned => true,
            _ => false,
        };
        if live {
            if let Some(k) = self.last {
                match k.successor() {
                    None => {
                        self.state = IterState::Exhausted;
                    },
                    Some(next) => {
                        if self.pos.le(&k) {
                            self.pos = next;
                        }
                    },
                }
            }
        }
    }
}

} // verus!
