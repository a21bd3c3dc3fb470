//! The resource coordinator: one generation model handle and one embedding
//! model handle per process. Generation mutates the model's positional cache,
//! so it is exclusive — one request at a time, from prefill through cache
//! reset. Embedding forward passes keep no cross-call state, so any number of
//! embedding readers may hold their handle at once.
//!
//! The coordinator is the model of the process-wide lock: the caller parks a
//! request whose acquisition was refused and retries once the holder
//! releases; waiting itself is the caller's concern.
use vstd::prelude::*;

verus! {

/// Tracks who may touch the two model handles.
pub struct Coordinator {
    /// Is the generation handle held by an in-flight request?
    pub generation_busy: bool,
    /// How many embedding readers currently hold the embedding handle.
    pub embedding_readers: usize,
}

/// One acquisition attempt on the exclusive generation handle: it is granted
/// exactly when the handle was free, and the handle is held afterwards either
/// way.
pub open spec fn acquire_transition(pre: Coordinator, post: Coordinator, granted: bool) -> bool {
    &&& granted == !pre.generation_busy
    &&& post.generation_busy
    &&& post.embedding_readers == pre.embedding_readers
}

impl Coordinator {
    pub fn new() -> (r: Self)
        ensures
            !r.generation_busy,
            r.embedding_readers == 0,
    {
        Coordinator { generation_busy: false, embedding_readers: 0 }
    }

    /// Try to take the generation handle for one whole request.
    pub fn acquire_for_generation(&mut self) -> (granted: bool)
        ensures
            acquire_transition(*old(self), *final(self), granted),
    {
        if self.generation_busy {
            false
        } else {
            self.generation_busy = true;
            true
        }
    }

    /// Give the generation handle back, once the request's cache reset is
    /// done.
    pub fn release_generation(&mut self)
        requires
            old(self).generation_busy,
        ensures
            !final(self).generation_busy,
            final(self).embedding_readers == old(self).embedding_readers,
    {
        self.generation_busy = false;
    }

    /// Take a shared embedding handle; embedding calls of different requests
    /// may proceed in parallel.
    pub fn acquire_for_embedding(&mut self)
        requires
            old(self).embedding_readers < usize::MAX,
        ensures
            final(self).embedding_readers == old(self).embedding_readers + 1,
            final(self).generation_busy == old(self).generation_busy,
    {
        self.embedding_readers = self.embedding_readers + 1;
    }

    pub fn release_embedding(&mut self)
        requires
            old(self).embedding_readers > 0,
        ensures
            final(self).embedding_readers == old(self).embedding_readers - 1,
            final(self).generation_busy == old(self).generation_busy,
    {
        self.embedding_readers = self.embedding_readers - 1;
    }
}

/// Law: generation is exclusive — once one request's acquisition is granted,
/// every further attempt is refused until the holder releases, so two
/// generations never interleave their forward calls: the second request's
/// prefill only begins after the first request's cache reset and release.
pub proof fn lemma_generation_exclusive(
    s0: Coordinator,
    s1: Coordinator,
    g1: bool,
    s2: Coordinator,
    g2: bool,
)
    requires
        acquire_transition(s0, s1, g1),
        acquire_transition(s1, s2, g2),
        g1,
    ensures
        !g2,
{
}

} // verus!
