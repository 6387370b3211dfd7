use std::marker::PhantomData;
use vstd::prelude::*;
use crate::shared::utils::composition::traits::Loader;
use crate::shared::utils::streaming::errors::PipelineError;

verus! {

/// A loader made of a function.
#[verifier::reject_recursive_types(I)]
#[verifier::reject_recursive_types(O)]
pub struct FnLoader<I, O, F: Fn(I) -> Result<O, PipelineError>> {
    name: &'static str,
    load_fn: F,
    types: PhantomData<(I, O)>,
}

impl<I, O, F: Fn(I) -> Result<O, PipelineError>> FnLoader<I, O, F> {
    #[verifier::type_invariant]
    spec fn callable(&self) -> bool {
        forall|input: I| self.load_fn.requires((input,))
    }

    pub closed spec fn spec_name(&self) -> &'static str {
        self.name
    }

    pub closed spec fn spec_fn(&self) -> F {
        self.load_fn
    }

    /// A loader named `name` that applies `load_fn`, which must accept every input.
    pub fn new(name: &'static str, load_fn: F) -> (r: Self)
        requires
            forall|input: I| load_fn.requires((input,)),
        ensures
            r.spec_name() == name,
            r.spec_fn() == load_fn,
    {
        FnLoader { name, load_fn, types: PhantomData }
    }
}

impl<I: Send + Sync, O: Send + Sync, F: Fn(I) -> Result<O, PipelineError> + Send + Sync> Loader<
    I,
    O,
> for FnLoader<I, O, F> {
    fn name(&self) -> (r: &'static str)
        ensures
            r == self.spec_name(),
    {
        self.name
    }

    /// Applies the function to `input`.
    fn load(&self, input: I) -> (r: Result<O, PipelineError>)
        ensures
            self.spec_fn().ensures((input,), r),
    {
        proof {
            use_type_invariant(self);
        }
        (self.load_fn)(input)
    }
}

} // verus!
