use std::marker::PhantomData;
use vstd::prelude::*;
use crate::shared::utils::composition::traits::Transformer;
use crate::shared::utils::streaming::errors::PipelineError;

verus! {

/// A transformer made of a function.
#[verifier::reject_recursive_types(I)]
#[verifier::reject_recursive_types(O)]
pub struct FnTransformer<I, O, F: Fn(I) -> Result<O, PipelineError>> {
    name: &'static str,
    transform_fn: F,
    types: PhantomData<(I, O)>,
}

impl<I, O, F: Fn(I) -> Result<O, PipelineError>> FnTransformer<I, O, F> {
    #[verifier::type_invariant]
    spec fn callable(&self) -> bool {
        forall|input: I| self.transform_fn.requires((input,))
    }

    pub closed spec fn spec_name(&self) -> &'static str {
        self.name
    }

    pub closed spec fn spec_fn(&self) -> F {
        self.transform_fn
    }

    /// A transformer named `name` that applies `transform_fn`, which must accept every
    /// input.
    pub fn new(name: &'static str, transform_fn: F) -> (r: Self)
        requires
            forall|input: I| transform_fn.requires((input,)),
        ensures
            r.spec_name() == name,
            r.spec_fn() == transform_fn,
    {
        FnTransformer { name, transform_fn, types: PhantomData }
    }
}

impl<I: Send + Sync, O: Send + Sync, F: Fn(I) -> Result<O, PipelineError> + Send + Sync> Transformer<
    I,
    O,
> for FnTransformer<I, O, F> {
    fn name(&self) -> (r: &'static str)
        ensures
            r == self.spec_name(),
    {
        self.name
    }

    /// Applies the function to `input`.
    fn transform(&self, input: I) -> (r: Result<O, PipelineError>)
        ensures
            self.spec_fn().ensures((input,), r),
    {
        proof {
            use_type_invariant(self);
        }
        (self.transform_fn)(input)
    }
}

} // verus!
