use std::sync::{Arc, Mutex, MutexGuard};
use vstd::prelude::*;
use vstd::slice::slice_to_vec;
use vstd::string::StringExecFns;
use crate::shared::utils::composition::traits::Validator;
use crate::shared::utils::streaming::context::PipelineContext;
use crate::shared::utils::streaming::errors::PipelineError;
use crate::shared::utils::streaming::traits::{
    chunk_view, result_view, OperatorCall, ProgressEmitter, StreamOperator,
};

verus! {

#[verifier::external_type_specification]
#[verifier::external_body]
#[verifier::reject_recursive_types(T)]
pub struct ExMutex<T: ?Sized>(Mutex<T>);

#[verifier::external_type_specification]
#[verifier::external_body]
#[verifier::reject_recursive_types(T)]
pub struct ExMutexGuard<'a, T: ?Sized + 'a>(MutexGuard<'a, T>);

/// Calls `Mutex::try_lock`, which never blocks, giving `None` when the mutex is held
/// elsewhere (`WouldBlock`) or poisoned. Nothing is claimed of the outcome: it depends on
/// other threads.
#[verifier::external_body]
fn lock_target<'a, T>(target: &'a Mutex<T>) -> (r: Option<MutexGuard<'a, T>>) {
    target.try_lock().ok()
}

/// The value a guard gives access to (`Deref::deref` of `MutexGuard`). Nothing is
/// claimed of it: it is whatever the mutex holds.
#[verifier::external_body]
fn guarded_value<'a, 'b, T>(guard: &'b MutexGuard<'a, T>) -> (r: &'b T) {
    &**guard
}

/// A validator made of a function, checking a value held in a shared mutex, which may
/// come from outside the pipeline. As a pipeline step it passes chunks on unchanged and
/// checks the value at the end of the stream. The function is called while the mutex is
/// held, so it must not lock the same target itself.
#[verifier::reject_recursive_types(T)]
pub struct FnValidator<T, F: Fn(&T) -> Result<(), PipelineError>> {
    rule_name: &'static str,
    target: Arc<Mutex<T>>,
    validate_fn: F,
    calls: Ghost<Seq<OperatorCall>>,
}

/// What a validator passes on once its function returned `v`: nothing when it accepts,
/// else its error.
pub open spec fn checked_verdict(v: Result<(), PipelineError>) -> Result<Option<Seq<u8>>, PipelineError> {
    match v {
        Ok(()) => Ok(None),
        Err(e) => Err(e),
    }
}

/// The value behind an optional reference.
pub open spec fn held_value<T>(held: Option<&T>) -> Option<T> {
    match held {
        Some(t) => Some(*t),
        None => None,
    }
}

/// The error given when the value to check cannot be reached.
pub open spec fn is_unreachable_target_error(e: PipelineError, rule_name: &'static str) -> bool {
    match e {
        PipelineError::OperatorFailed { operator_name, reason } => operator_name == rule_name
            && reason@ == "não foi possível acessar o valor para validação"@,
        _ => false,
    }
}

impl<T, F: Fn(&T) -> Result<(), PipelineError>> FnValidator<T, F> {
    #[verifier::type_invariant]
    spec fn callable(&self) -> bool {
        forall|t: &T| self.validate_fn.requires((t,))
    }

    pub closed spec fn spec_rule_name(&self) -> &'static str {
        self.rule_name
    }

    pub closed spec fn spec_fn(&self) -> F {
        self.validate_fn
    }

    /// The shared value the validator checks.
    pub closed spec fn spec_target(&self) -> Arc<Mutex<T>> {
        self.target
    }

    /// `r` is a verdict at the end of the stream, given what locking the target gave:
    /// `None` when it could not be locked, else the value it holds.
    pub open spec fn verdict(&self, held: Option<T>, r: Result<Option<Seq<u8>>, PipelineError>) -> bool {
        match held {
            None => match r {
                Err(e) => is_unreachable_target_error(e, self.spec_rule_name()),
                Ok(_) => false,
            },
            Some(t) => exists|v: Result<(), PipelineError>|
                #[trigger] self.spec_fn().ensures((&t,), v) && r == checked_verdict(v),
        }
    }

    /// The verdict at the end of the stream on what locking the target gave: the
    /// unreachable-value error when it could not be locked, else the function's outcome
    /// on the value, passing nothing on when it accepts.
    pub fn verdict_on(&self, held: Option<&T>) -> (r: Result<Option<Vec<u8>>, PipelineError>)
        ensures
            self.verdict(held_value(held), result_view(r)),
    {
        match held {
            None => {
                let e = PipelineError::OperatorFailed {
                    operator_name: self.rule_name,
                    reason: String::from_str("não foi possível acessar o valor para validação"),
                };
                Err(e)
            },
            Some(value) => {
                let v = self.check(value);
                let r = match v {
                    Ok(()) => Ok(None),
                    Err(e) => Err(e),
                };
                proof {
                    let t = held_value(held)->0;
                    assert(t == *value);
                    assert(self.spec_fn().ensures((&t,), v));
                }
                r
            },
        }
    }

    /// A validator named `rule_name` that checks the value in `target` with
    /// `validate_fn`, which must accept every value.
    pub fn new(rule_name: &'static str, target: Arc<Mutex<T>>, validate_fn: F) -> (r: Self)
        requires
            forall|t: &T| validate_fn.requires((t,)),
        ensures
            r.spec_rule_name() == rule_name,
            r.spec_fn() == validate_fn,
            r.spec_target() == target,
    {
        FnValidator { rule_name, target, validate_fn, calls: Ghost(Seq::empty()) }
    }

    /// Applies the function to `target` (what `Validator::validate` does).
    pub fn check(&self, target: &T) -> (r: Result<(), PipelineError>)
        ensures
            self.spec_fn().ensures((target,), r),
    {
        proof {
            use_type_invariant(self);
        }
        (self.validate_fn)(target)
    }
}

impl<T: Send + Sync, F: Fn(&T) -> Result<(), PipelineError> + Send + Sync, E: ProgressEmitter> StreamOperator<E> for FnValidator<T, F> {
    /// Chunks pass on unchanged.
    open spec fn is_pass_through(&self) -> bool {
        true
    }

    closed spec fn calls(&self) -> Seq<OperatorCall> {
        self.calls@
    }

    open spec fn op_name(&self) -> &'static str {
        self.spec_rule_name()
    }

    fn name(&self) -> &'static str {
        self.rule_name
    }

    /// Passes chunks on; at the end of the stream checks the value held in the mutex,
    /// failing when the mutex cannot be locked.
    fn process(
        &mut self,
        chunk: Option<&[u8]>,
        ctx: &mut PipelineContext,
        emitter: &mut E,
    ) -> (r: Result<Option<Vec<u8>>, PipelineError>)
        ensures
            final(self).spec_rule_name() == old(self).spec_rule_name(),
            final(self).spec_fn() == old(self).spec_fn(),
            final(self).spec_target() == old(self).spec_target(),
            final(ctx)@ == old(ctx)@,
            chunk is None ==> exists|held: Option<T>| old(self).verdict(held, result_view(r)),
    {
        proof {
            use_type_invariant(&*self);
        }
        let r = match chunk {
            Some(bytes) => Ok(Some(slice_to_vec(bytes))),
            None => {
                let mutex: &Mutex<T> = &*self.target;
                match lock_target(mutex) {
                    None => self.verdict_on(None),
                    Some(guard) => {
                        let value = guarded_value(&guard);
                        self.verdict_on(Some(value))
                    },
                }
            },
        };
        self.calls = Ghost(
            self.calls@.push(
                OperatorCall::Process {
                    chunk: chunk_view(chunk),
                    ctx_before: ctx@,
                    ctx_after: ctx@,
                    result: result_view(r),
                },
            ),
        );
        r
    }

    /// Errors are not recovered from.
    fn handle_error(
        &mut self,
        err: PipelineError,
        ctx: &mut PipelineContext,
        emitter: &mut E,
    ) -> (r: Result<Option<Vec<u8>>, PipelineError>)
        ensures
            final(self).spec_rule_name() == old(self).spec_rule_name(),
            final(self).spec_fn() == old(self).spec_fn(),
            final(self).spec_target() == old(self).spec_target(),
            final(ctx)@ == old(ctx)@,
            r == Err::<Option<Vec<u8>>, PipelineError>(err),
    {
        proof {
            use_type_invariant(&*self);
        }
        let ghost error = err;
        let r = Err(err);
        self.calls = Ghost(
            self.calls@.push(
                OperatorCall::HandleError {
                    error: error,
                    ctx_before: ctx@,
                    ctx_after: ctx@,
                    result: result_view(r),
                },
            ),
        );
        r
    }
}

impl<T: Send + Sync, F: Fn(&T) -> Result<(), PipelineError> + Send + Sync, E: ProgressEmitter> Validator<T, E> for FnValidator<T, F> {
    /// The name given at construction.
    open spec fn rule(&self) -> &'static str {
        self.spec_rule_name()
    }

    /// The outcomes the function may give for `target`.
    open spec fn judged(&self, target: &T, r: Result<(), PipelineError>) -> bool {
        self.spec_fn().ensures((target,), r)
    }

    fn rule_name(&self) -> &'static str {
        self.rule_name
    }

    /// Applies the function to `target`.
    fn validate(&self, target: &T) -> Result<(), PipelineError> {
        self.check(target)
    }
}

} // verus!
