//! The two failures a caller can be handed.

use vstd::prelude::*;

verus! {

/// An evaluation that the engine reported as failed.
///
/// The engine signals failure with a bare status code, so the error carries
/// nothing: no cause can be told apart from another.
#[derive(Debug, Clone, Copy, PartialEq, Eq, Structural)]
pub struct EvalError;

/// A tokenization that did not fit the buffer it was offered.
///
/// The field is the number of tokens the text needs in total: a buffer of
/// that length is large enough for a second attempt.
#[derive(Debug, Clone, Copy, PartialEq, Eq, Structural)]
pub struct TooManyTokens(pub usize);

} // verus!
