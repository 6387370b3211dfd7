use vstd::prelude::*;
use crate::shared::utils::operators::builder::{ChunkHook, FnOperator, Forward};
use crate::shared::utils::streaming::traits::ProgressEmitter;

verus! {

impl<T, E: ProgressEmitter, N, F, X> FnOperator<T, E, N, F, X> {
    /// Makes the operator a loader: `hook` writes each chunk to its destination, and the
    /// chunk then passes on unchanged, so that loaders can be chained.
    pub fn load_it<H: ChunkHook<T, E>>(self, hook: H) -> (r: FnOperator<T, E, Forward<H>, F, X>)
        ensures
            r.spec_name() == self.spec_name(),
            r.spec_state() == self.spec_state(),
            r.spec_next() == Forward(hook),
            r.spec_flush() == self.spec_flush(),
            r.spec_recovery() == self.spec_recovery(),
            r.call_record() == self.call_record(),
    {
        self.do_it(hook)
    }
}

} // verus!
