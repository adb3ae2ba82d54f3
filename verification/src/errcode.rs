//! Engine error codes and the error-pointer encoding that carries them.
//!
//! The engine answers through one machine word. The topmost `MAX_ERRNO`
//! values of the word are no addresses: each stands for an error code, the
//! word being the code's negation in two's complement.

use vstd::prelude::*;

verus! {

/// An error code of the engine, passed on as the engine gave it.
#[derive(Clone, Copy, Debug, PartialEq, Eq, Structural)]
pub struct Errcode {
    pub code: u32,
}

/// The largest error code that a word can carry.
pub const MAX_ERRNO: usize = 4095;

/// Whether `word` is an error sentinel rather than an address.
pub open spec fn is_err_word(word: usize) -> bool {
    word > usize::MAX - MAX_ERRNO
}

/// The code that the sentinel `word` stands for.
pub open spec fn err_code_of(word: usize) -> int {
    usize::MAX - word + 1
}

/// What a word means: the error it encodes, or else the word itself.
pub open spec fn errptr_spec(word: usize) -> Result<usize, Errcode> {
    if is_err_word(word) {
        Err(Errcode { code: err_code_of(word) as u32 })
    } else {
        Ok(word)
    }
}

/// Tells an error sentinel from an address.
pub fn errptr_to_result(word: usize) -> (r: Result<usize, Errcode>)
    ensures
        r == errptr_spec(word),
        r matches Err(e) ==> 1 <= e.code <= MAX_ERRNO,
{
    if word > usize::MAX - MAX_ERRNO {
        let code: usize = usize::MAX - word + 1;
        Err(Errcode { code: code as u32 })
    } else {
        Ok(word)
    }
}

/// A word is an error exactly when it is a sentinel; a sentinel's code lies
/// between 1 and `MAX_ERRNO`, two sentinels never share a code, and zero is
/// no sentinel.
pub proof fn lemma_errptr_codes(word: usize, other: usize)
    ensures
        is_err_word(word) <==> errptr_spec(word) is Err,
        is_err_word(word) ==> 1 <= err_code_of(word) <= MAX_ERRNO,
        is_err_word(word) && is_err_word(other) && errptr_spec(word) == errptr_spec(other) ==> word
            == other,
        !is_err_word(0),
{
}

} // verus!
