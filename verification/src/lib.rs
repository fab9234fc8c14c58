//! The contract layer between a safe caller and a native language-model
//! inference engine that is driven through a C interface.
//!
//! Nothing here touches the engine. The host program performs each native
//! call and hands the engine's plain answers (a handle address, a status
//! code, a token count, a byte range) to the functions of this crate, which
//! decide what the caller is told and what the session record becomes.

pub mod context;
pub mod error;
pub mod kv_cache;
pub mod path;
pub mod token;
pub mod tokenize;

pub use context::{Context, Dimensions, SessionState};
pub use error::{EvalError, TooManyTokens};
pub use kv_cache::{KvCache, KvCacheView};
pub use path::nul_terminated;
pub use token::{Token, TokenBatch};
