//! Tokens, and runs of tokens in the form the engine takes them.

use vstd::prelude::*;
use vstd::std_specs::convert::FromSpecImpl;

verus! {

/// An index into the vocabulary of a loaded model.
///
/// Two tokens are equal exactly when their indices are.
#[derive(Debug, Clone, Copy, PartialEq, Eq, Hash, Structural)]
pub struct Token(pub i32);

impl From<i32> for Token {
    fn from(id: i32) -> (token: Token) {
        Token(id)
    }
}

impl FromSpecImpl<i32> for Token {
    open spec fn obeys_from_spec() -> bool {
        true
    }

    open spec fn from_spec(id: i32) -> Token {
        Token(id)
    }
}

impl core::ops::Deref for Token {
    type Target = i32;

    fn deref(&self) -> (id: &i32)
        ensures
            *id == self.0,
    {
        &self.0
    }
}

impl Token {
    /// The vocabulary indices of `tokens`, in order.
    pub open spec fn ids_of(tokens: Seq<Token>) -> Seq<i32> {
        Seq::new(tokens.len(), |i: int| tokens[i].0)
    }

    /// The tokens that the vocabulary indices `ids` stand for, in order.
    pub open spec fn tokens_of(ids: Seq<i32>) -> Seq<Token> {
        Seq::new(ids.len(), |i: int| Token(ids[i]))
    }

    /// The number of buffer slots the engine is told of when it is offered
    /// a buffer of `len` tokens.
    pub open spec fn capacity_of(len: nat) -> int {
        if len <= i32::MAX {
            len as int
        } else {
            i32::MAX as int
        }
    }

    /// The capacity of `buffer` as the engine counts it.
    ///
    /// The engine counts in 32-bit signed integers; a longer buffer is
    /// offered only as far as that count reaches.
    pub fn buffer_capacity(buffer: &[Token]) -> (capacity: i32)
        ensures
            capacity == Token::capacity_of(buffer@.len()),
    {
        let len: usize = buffer.len();
        if len <= 0x7fff_ffff {
            len as i32
        } else {
            0x7fff_ffff
        }
    }
}

/// A run of tokens in the form the engine takes it: the bare vocabulary
/// indices, and their number as a 32-bit signed integer.
#[derive(Debug)]
pub struct TokenBatch {
    ids: Vec<i32>,
    len: i32,
}

impl View for TokenBatch {
    type V = Seq<i32>;

    closed spec fn view(&self) -> Seq<i32> {
        self.ids@
    }
}

impl TokenBatch {
    #[verifier::type_invariant]
    spec fn counted(&self) -> bool {
        self.len == self.ids@.len()
    }

    /// Converts `tokens` index by index.
    ///
    /// A run longer than the engine can count has no batch.
    pub fn new(tokens: &[Token]) -> (batch: Option<TokenBatch>)
        ensures
            batch is Some <==> tokens@.len() <= i32::MAX,
            batch matches Some(b) ==> b@ == Token::ids_of(tokens@),
    {
        let n: usize = tokens.len();
        if n > 0x7fff_ffff {
            return None;
        }
        let mut ids: Vec<i32> = Vec::with_capacity(n);
        let mut i: usize = 0;
        while i < n
            invariant
                n == tokens@.len(),
                i <= n,
                ids@ == Token::ids_of(tokens@.take(i as int)),
            decreases n - i,
        {
            ids.push(tokens[i].0);
            i += 1;
        }
        Some(TokenBatch { ids, len: n as i32 })
    }

    /// The indices, in the order of the tokens they were made from.
    pub fn ids(&self) -> (ids: &[i32])
        ensures
            ids@ == self@,
    {
        self.ids.as_slice()
    }

    /// The number of indices, as the engine is told it.
    pub fn len(&self) -> (len: i32)
        ensures
            len == self@.len(),
    {
        proof {
            use_type_invariant(self);
        }
        self.len
    }
}

} // verus!
