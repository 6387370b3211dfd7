use vstd::prelude::*;
use crate::shared::utils::streaming::errors::PipelineError;
use crate::shared::utils::streaming::traits::{ProgressEmitter, StreamOperator};

verus! {

/// Checks a value without changing it; also usable as a pipeline step.
///
/// `rule` is the name of the rule the validator checks; `judged` says which outcomes
/// `validate` may give for a value.
pub trait Validator<T, E: ProgressEmitter>: StreamOperator<E> {
    spec fn rule(&self) -> &'static str;

    spec fn judged(&self, target: &T, r: Result<(), PipelineError>) -> bool;

    fn rule_name(&self) -> (r: &'static str)
        ensures
            r == self.rule(),
    ;

    fn validate(&self, target: &T) -> (r: Result<(), PipelineError>)
        ensures
            self.judged(target, r),
    ;
}

/// Turns a value into another.
pub trait Transformer<I, O>: Send + Sync {
    fn name(&self) -> &'static str;

    fn transform(&self, input: I) -> Result<O, PipelineError>;
}

/// Stores or publishes a value and returns the result of doing so.
pub trait Loader<I, O>: Send + Sync {
    fn name(&self) -> &'static str;

    fn load(&self, input: I) -> Result<O, PipelineError>;
}

} // verus!
