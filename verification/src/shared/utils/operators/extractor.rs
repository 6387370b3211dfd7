use vstd::prelude::*;
use crate::shared::utils::operators::builder::{ChunkHook, Finish, FinishHook, FnOperator, Forward};
use crate::shared::utils::streaming::traits::ProgressEmitter;

verus! {

impl<T, E: ProgressEmitter, N, F, X> FnOperator<T, E, N, F, X> {
    /// Makes the operator an extractor: `on_chunk` reads each chunk (and may record what
    /// it finds in the context), the chunk then passes on unchanged; `on_flush` runs at
    /// the end of the stream, after which nothing is passed on.
    pub fn extract_it<C: ChunkHook<T, E>, H: FinishHook<T, E>>(self, on_chunk: C, on_flush: H) -> (r:
        FnOperator<T, E, Forward<C>, Finish<H>, X>)
        ensures
            r.spec_name() == self.spec_name(),
            r.spec_state() == self.spec_state(),
            r.spec_next() == Forward(on_chunk),
            r.spec_flush() == Finish(on_flush),
            r.spec_recovery() == self.spec_recovery(),
            r.call_record() == self.call_record(),
    {
        self.with_steps(Forward(on_chunk), Finish(on_flush))
    }
}

} // verus!
