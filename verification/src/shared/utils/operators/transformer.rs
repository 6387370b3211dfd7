use vstd::prelude::*;
use crate::shared::utils::operators::builder::{FnOperator, Transform, TransformHook};
use crate::shared::utils::streaming::traits::ProgressEmitter;

verus! {

impl<T, E: ProgressEmitter, N, F, X> FnOperator<T, E, N, F, X> {
    /// Makes the operator a transformer: `hook` returns, for each chunk, the bytes that
    /// pass on in its place.
    pub fn transform_it<H: TransformHook<T, E>>(self, hook: H) -> (r: FnOperator<
        T,
        E,
        Transform<H>,
        F,
        X,
    >)
        ensures
            r.spec_name() == self.spec_name(),
            r.spec_state() == self.spec_state(),
            r.spec_next() == Transform(hook),
            r.spec_flush() == self.spec_flush(),
            r.spec_recovery() == self.spec_recovery(),
            r.call_record() == self.call_record(),
    {
        self.with_next(Transform(hook))
    }
}

} // verus!
