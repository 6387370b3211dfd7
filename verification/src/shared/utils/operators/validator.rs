use vstd::prelude::*;
use crate::shared::utils::operators::builder::{Finish, FinishHook, FnOperator, PassThrough};
use crate::shared::utils::streaming::traits::ProgressEmitter;

verus! {

impl<T, E: ProgressEmitter, N, F, X> FnOperator<T, E, N, F, X> {
    /// Makes the operator a validator: chunks pass on unchanged, and `hook` checks the
    /// context at the end of the stream; its error stops the pipeline.
    pub fn validate_it<H: FinishHook<T, E>>(self, hook: H) -> (r: FnOperator<
        T,
        E,
        PassThrough,
        Finish<H>,
        X,
    >)
        ensures
            r.spec_name() == self.spec_name(),
            r.spec_state() == self.spec_state(),
            r.spec_next() == PassThrough,
            r.spec_flush() == Finish(hook),
            r.spec_recovery() == self.spec_recovery(),
            r.call_record() == self.call_record(),
    {
        self.with_steps(PassThrough, Finish(hook))
    }
}

} // verus!
