//! Snapshots of a session's key/value cache: taking one, and admitting one
//! for restoring.

use crate::context::{Context, SessionState};
use vstd::prelude::*;

verus! {

/// What a snapshot of the key/value cache holds, as plain values.
pub struct KvCacheView {
    /// The bytes of the engine's recurrent state.
    pub bytes: Seq<u8>,
    /// The number of tokens that state reflects.
    pub token_count: int,
}

impl KvCacheView {
    /// Whether the snapshot has the byte length `expected_len`.
    pub open spec fn fits(self, expected_len: nat) -> bool {
        self.bytes.len() == expected_len
    }
}

/// A snapshot of a session's key/value cache: the bytes of the engine's
/// recurrent state, borrowed, and the number of tokens they reflect.
///
/// A snapshot taken from a session borrows that session, so it cannot be
/// read once the session is used again or is gone. The two fields are all
/// there is to it: a caller that stores a snapshot frames it as it likes.
#[derive(Debug, Clone, Copy)]
pub struct KvCache<'a> {
    /// The bytes of the cache, as long as the session's cache is.
    pub data: &'a [u8],
    /// The number of tokens the bytes reflect.
    pub token_count: i32,
}

impl<'a> View for KvCache<'a> {
    type V = KvCacheView;

    open spec fn view(&self) -> KvCacheView {
        KvCacheView { bytes: self.data@, token_count: self.token_count as int }
    }
}

impl Context {
    /// The snapshot of this session's key/value cache that the engine
    /// describes by the bytes `data` and the count `token_count`.
    ///
    /// The cache has the length it had when the model was loaded. The
    /// snapshot borrows the session for as long as it lives.
    pub fn kv_cache<'a>(&'a mut self, data: &'a [u8], token_count: i32) -> (snapshot: KvCache<'a>)
        requires
            data@.len() == old(self)@.dimensions.kv_cache_size,
        ensures
            snapshot@ == (KvCacheView { bytes: data@, token_count: token_count as int }),
            final(self)@ == old(self)@,
    {
        KvCache { data, token_count }
    }

    /// Admits `snapshot` for restoring into this session.
    ///
    /// The engine takes a snapshot only at the exact length of its own
    /// cache and stops the process on any other. So a snapshot of that
    /// length is handed back for the engine, and any other is held back.
    pub fn set_kv_cache<'a>(&mut self, snapshot: KvCache<'a>) -> (admitted: Option<KvCache<'a>>)
        ensures
            admitted is Some <==> old(self)@.admits(snapshot@),
            admitted matches Some(restored) ==> restored@ == snapshot@,
            final(self)@ == old(self)@,
    {
        if snapshot.data.len() == self.kv_cache_size() {
            Some(snapshot)
        } else {
            None
        }
    }
}

/// A snapshot taken of a session is admitted back into that session,
/// whatever its bytes and its token count are.
pub proof fn lemma_snapshot_returns_to_its_session(
    session: SessionState,
    bytes: Seq<u8>,
    token_count: int,
)
    requires
        bytes.len() == session.dimensions.kv_cache_size,
    ensures
        session.admits(KvCacheView { bytes, token_count }),
{
}

} // verus!
