//! The buffer contract of tokenization: what the engine's answer means for
//! the caller's buffer.

use crate::context::Context;
use crate::error::TooManyTokens;
use crate::token::Token;
use vstd::prelude::*;

verus! {

impl Context {
    /// What a tokenization yields when the engine answers `reported`: the
    /// number of tokens it wrote, or the number the text needs.
    pub open spec fn tokenize_result(reported: int) -> Result<nat, TooManyTokens> {
        if reported >= 0 {
            Ok(reported as nat)
        } else {
            Err(TooManyTokens((-reported) as usize))
        }
    }

    /// The answer that the engine's interface documents for a text of
    /// `needed` tokens when it is offered `capacity` slots: the count where
    /// the text fits, the negated count where it does not.
    pub open spec fn documented_report(needed: nat, capacity: int) -> int {
        if needed <= capacity {
            needed as int
        } else {
            -(needed as int)
        }
    }

    /// Hands the caller the outcome of a tokenization that the engine
    /// answered with `reported`, after writing vocabulary indices to the
    /// front of `raw`.
    ///
    /// An answer that is not negative is the number of indices written.
    /// They are copied, one token for one index, to the front of `buffer`,
    /// and that front is returned; the rest of `buffer` stays as it was.
    /// A negative answer means the text did not fit: nothing was written,
    /// and the negated answer is the number of tokens the text needs.
    ///
    /// The engine writes no more than it was offered, so a count is within
    /// both `raw` and `buffer`.
    pub fn tokenize<'a>(&self, reported: i32, raw: &[i32], buffer: &'a mut [Token]) -> (outcome:
        Result<&'a mut [Token], TooManyTokens>)
        requires
            reported >= 0 ==> reported <= raw@.len() && reported <= old(buffer)@.len(),
        ensures
            match outcome {
                Ok(written) => {
                    &&& Context::tokenize_result(reported as int) == Ok::<nat, TooManyTokens>(
                        written@.len(),
                    )
                    &&& written@ == Token::tokens_of(raw@.take(reported as int))
                    &&& final(buffer)@ == final(written)@ + old(buffer)@.skip(reported as int)
                },
                Err(short) => {
                    &&& Context::tokenize_result(reported as int) == Err::<nat, TooManyTokens>(
                        short,
                    )
                    &&& final(buffer)@ == old(buffer)@
                },
            },
    {
        if reported < 0 {
            let needed: i64 = -(reported as i64);
            return Err(TooManyTokens(needed as usize));
        }
        let count: usize = reported as usize;
        let (written, _rest) = buffer.split_at_mut(count);
        let mut i: usize = 0;
        while i < count
            invariant
                i <= count,
                count <= raw@.len(),
                written@.len() == count,
                forall|j: int| 0 <= j < i ==> written@[j] == Token(raw@[j]),
            decreases count - i,
        {
            written[i] = Token(raw[i]);
            i += 1;
        }
        Ok(written)
    }
}

/// An engine that answers as its interface documents never reports more
/// tokens written than it was offered slots, and it is never offered more
/// slots than the buffer has.
pub proof fn lemma_documented_report_is_within_buffer(needed: nat, buffer_len: nat)
    ensures
        ({
            let capacity = Token::capacity_of(buffer_len);
            let reported = Context::documented_report(needed, capacity);
            &&& 0 <= capacity <= buffer_len
            &&& reported >= 0 ==> reported <= capacity
        }),
{
}

/// A text that needs more tokens than the buffer has slots is refused with
/// exactly the number of tokens it needs, and a buffer of that length is
/// enough: offered to the engine, it is offered whole, and the text is then
/// tokenized into exactly that many tokens.
pub proof fn lemma_reported_capacity_suffices(needed: nat, capacity: nat)
    requires
        capacity < needed <= i32::MAX,
    ensures
        Context::tokenize_result(
            Context::documented_report(needed, Token::capacity_of(capacity)),
        ) == Err::<nat, TooManyTokens>(TooManyTokens(needed as usize)),
        Token::capacity_of(needed) == needed,
        Context::tokenize_result(Context::documented_report(needed, Token::capacity_of(needed)))
            == Ok::<nat, TooManyTokens>(needed),
{
}

} // verus!
