//! The session record: what a loaded model's session is known by, and how
//! the engine's answers to a load, an evaluation and a sampling change it.

use crate::error::EvalError;
use crate::kv_cache::KvCacheView;
use crate::token::Token;
use vstd::prelude::*;

verus! {

/// The sizes of a loaded model and of its session, as the engine reports
/// them once the model is loaded. They hold for as long as the session
/// lasts.
#[derive(Debug, Clone, Copy, PartialEq, Eq, Structural)]
pub struct Dimensions {
    /// The number of tokens in the vocabulary.
    pub n_vocab: i32,
    /// The number of tokens the session can hold in context.
    pub n_ctx: i32,
    /// The width of an embedding.
    pub n_embd: i32,
    /// The length in bytes of the session's key/value cache.
    pub kv_cache_size: usize,
}

/// What a session record holds, as plain values.
pub struct SessionState {
    /// The address of the engine's session. Never zero.
    pub handle: usize,
    /// The sizes the engine reported when the model was loaded.
    pub dimensions: Dimensions,
    /// Whether an evaluation has succeeded in this session.
    pub evaluated: bool,
}

impl SessionState {
    /// Whether `snapshot` may be restored into the session: whether it is
    /// exactly as long as the session's key/value cache.
    pub open spec fn admits(self, snapshot: KvCacheView) -> bool {
        snapshot.fits(self.dimensions.kv_cache_size as nat)
    }
}

/// The record of one loaded model's inference session.
///
/// A record stands for exactly one session of the engine and cannot be
/// copied: whoever holds it is the one to end that session.
#[derive(Debug)]
pub struct Context {
    handle: usize,
    dimensions: Dimensions,
    evaluated: bool,
}

impl View for Context {
    type V = SessionState;

    closed spec fn view(&self) -> SessionState {
        SessionState {
            handle: self.handle,
            dimensions: self.dimensions,
            evaluated: self.evaluated,
        }
    }
}

impl Context {
    #[verifier::type_invariant]
    spec fn owns_a_handle(&self) -> bool {
        self.handle != 0
    }

    /// Takes charge of the session at address `handle`, the engine's answer
    /// to a request to load a model, with the sizes `dimensions` that the
    /// engine reports of it.
    ///
    /// The engine answers a load that failed, for whatever reason, with the
    /// null address. There is then no session and no record of one, and
    /// `dimensions` is not looked at.
    pub fn init_from_file_cstr(handle: usize, dimensions: Dimensions) -> (created: Option<Context>)
        ensures
            created is None <==> handle == 0,
            created matches Some(context) ==> context@ == (SessionState {
                handle,
                dimensions,
                evaluated: false,
            }),
    {
        if handle == 0 {
            None
        } else {
            Some(Context { handle, dimensions, evaluated: false })
        }
    }

    /// The address of the engine's session.
    pub fn handle(&self) -> (handle: usize)
        ensures
            handle == self@.handle,
            handle != 0,
    {
        proof {
            use_type_invariant(self);
        }
        self.handle
    }

    /// The number of tokens in the vocabulary of the loaded model.
    pub fn n_vocab(&self) -> (n_vocab: i32)
        ensures
            n_vocab == self@.dimensions.n_vocab,
    {
        self.dimensions.n_vocab
    }

    /// The number of tokens the session can hold in context.
    pub fn n_ctx(&self) -> (n_ctx: i32)
        ensures
            n_ctx == self@.dimensions.n_ctx,
    {
        self.dimensions.n_ctx
    }

    /// The width of an embedding of the loaded model.
    pub fn n_embd(&self) -> (n_embd: i32)
        ensures
            n_embd == self@.dimensions.n_embd,
    {
        self.dimensions.n_embd
    }

    /// The length in bytes of the session's key/value cache, which is the
    /// length of every snapshot of it.
    pub fn kv_cache_size(&self) -> (size: usize)
        ensures
            size == self@.dimensions.kv_cache_size,
    {
        self.dimensions.kv_cache_size
    }

    /// Whether an evaluation has succeeded in this session, so that the
    /// engine holds scores to sample from.
    pub fn has_evaluated(&self) -> (evaluated: bool)
        ensures
            evaluated == self@.evaluated,
    {
        self.evaluated
    }

    /// What an evaluation yields when the engine answers `status`.
    pub open spec fn eval_result(status: int) -> Result<(), EvalError> {
        if status == 0 {
            Ok(())
        } else {
            Err(EvalError)
        }
    }

    /// Records the end of an evaluation that the engine answered with
    /// `status`.
    ///
    /// Zero is the engine's only sign of success. Any other status is the
    /// one failure there is, and leaves the record as it was. Neither
    /// touches the handle or the dimensions.
    pub fn eval(&mut self, status: i32) -> (outcome: Result<(), EvalError>)
        ensures
            outcome == Context::eval_result(status as int),
            final(self)@.evaluated == (old(self)@.evaluated || status == 0),
            final(self)@.handle == old(self)@.handle,
            final(self)@.dimensions == old(self)@.dimensions,
    {
        proof {
            use_type_invariant(&*self);
        }
        if status == 0 {
            self.evaluated = true;
            Ok(())
        } else {
            Err(EvalError)
        }
    }

    /// The token that the engine sampled as the vocabulary index `sampled`.
    ///
    /// The engine samples from the scores of the last evaluation, so the
    /// session must have seen one succeed.
    pub fn sample_top_p_top_k(&mut self, sampled: i32) -> (token: Token)
        requires
            old(self)@.evaluated,
        ensures
            token == Token(sampled),
            final(self)@ == old(self)@,
    {
        Token(sampled)
    }
}

} // verus!
