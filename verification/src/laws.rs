//! What holds of every iterator, whatever the engine replies.

use crate::bpos::rank_max;
use crate::btree::{reply_spec, IterState, IterView, RawKey};
use crate::errcode::is_err_word;
use vstd::prelude::*;

verus! {

/// A peek leaves the position where it was. Asked again with nothing done in
/// between, and the engine replying as before, it returns what it returned,
/// and the iterator is as the first peek left it.
pub proof fn lemma_peek_idempotent(it: IterView, end: int, raw: RawKey)
    ensures
        it.after_peek(end, raw).pos == it.pos,
        it.after_peek(end, raw).peeked(end, raw) == it.peeked(end, raw),
        it.after_peek(end, raw).after_peek(end, raw) == it.after_peek(end, raw),
{
}

/// In key order, the key that a peek shows after an advance is strictly
/// greater than the key that the peek before the advance showed.
pub proof fn lemma_advance_monotonic(
    it: IterView,
    end1: int,
    raw1: RawKey,
    end2: int,
    raw2: RawKey,
)
    requires
        it.strict(),
    ensures
        ({
            let first = it.peeked(end1, raw1);
            let moved = it.after_peek(end1, raw1).after_advance();
            let second = moved.peeked(end2, raw2);
            first matches Ok(Some(a)) ==> (second matches Ok(Some(b)) ==> a.p@ < b.p@)
        }),
{
}

/// An advance never moves the position back, and changes nothing where no
/// key was shown yet or the iterator is exhausted.
pub proof fn lemma_advance_forward(it: IterView)
    ensures
        it.after_advance().pos >= it.pos,
        it.last is None || it.state == IterState::Exhausted ==> it.after_advance() == it,
        it.after_advance().after_advance() == it.after_advance(),
        it.state == IterState::Positioned ==> (it.last matches Some(k) ==> it.after_advance().state
            == IterState::Exhausted || it.after_advance().pos > k),
{
}

/// A bounded peek never shows a key past its bound. Where the engine's key
/// lies past the bound, the peek returns nothing, and no error.
pub proof fn lemma_peek_bounded(it: IterView, end: int, raw: RawKey)
    ensures
        it.peeked(end, raw) matches Ok(Some(key)) ==> key.p@ <= end && key.p == raw.p,
        !is_err_word(raw.k) && raw.p@ > end ==> it.peeked(end, raw) matches Ok(None),
{
}

/// An error sentinel is reported as an error and as nothing else; the zero
/// word is reported as the end of the range and never as an error.
pub proof fn lemma_error_is_not_empty(it: IterView, end: int, raw: RawKey)
    ensures
        it.peeked(end, raw) is Err <==> is_err_word(raw.k),
        it.peeked(end, raw) matches Err(e) ==> reply_spec(raw) matches Err(f) && f == e,
        it.state != IterState::Errored ==> (it.after_peek(end, raw).state == IterState::Errored
            <==> is_err_word(raw.k)),
        raw.k == 0 ==> it.peeked(end, raw) matches Ok(None),
{
}

/// Neither a peek nor an advance changes the keyspace or the mode that an
/// iterator was opened with, and neither brings an errored iterator back.
pub proof fn lemma_mode_is_fixed(it: IterView, end: int, raw: RawKey)
    ensures
        it.after_peek(end, raw).btree == it.btree,
        it.after_peek(end, raw).flags == it.flags,
        it.after_advance().btree == it.btree,
        it.after_advance().flags == it.flags,
        it.state == IterState::Errored ==> it.after_peek(end, raw) == it && it.after_advance()
            == it,
{
}

/// An exhausted iterator shows no key again, whatever the engine replies.
pub proof fn lemma_exhausted_stays(it: IterView, end: int, raw: RawKey)
    requires
        it.state == IterState::Exhausted,
    ensures
        !(it.peeked(end, raw) matches Ok(Some(_))),
        it.after_advance() == it,
        !is_err_word(raw.k) ==> it.after_peek(end, raw) == it,
{
}

/// An unbounded peek shows whatever key the engine found at or after the
/// position: the greatest position bounds nothing.
pub proof fn lemma_peek_whole_range(it: IterView, raw: RawKey)
    requires
        it.state == IterState::Positioned,
        reply_spec(raw) matches Ok(Some(_)),
        it.strict() ==> it.pos <= raw.p@,
    ensures
        it.peeked(rank_max(), raw) == reply_spec(raw),
{
}

} // verus!
