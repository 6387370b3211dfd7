use vstd::prelude::*;
use crate::shared::utils::streaming::context::{ContextKind, ContextValue, PipelineContext};
use crate::shared::utils::streaming::errors::PipelineError;

verus! {

/// Where a pipeline step stands.
#[derive(Debug, Clone, Copy, PartialEq, Eq)]
pub enum StepState {
    Started,
    Processing,
    Completed,
}

impl StepState {
    pub open spec fn spec_label(self) -> Seq<char> {
        match self {
            StepState::Started => "STARTED"@,
            StepState::Processing => "PROCESSING"@,
            StepState::Completed => "COMPLETED"@,
        }
    }

    /// The name of the state as clients see it.
    pub fn label(&self) -> (r: &'static str)
        ensures
            r@ == self.spec_label(),
    {
        match self {
            StepState::Started => "STARTED",
            StepState::Processing => "PROCESSING",
            StepState::Completed => "COMPLETED",
        }
    }
}

/// Receives progress notifications from the steps of a pipeline.
pub trait ProgressEmitter: Send + Sync {
    fn emit(&mut self, state: StepState, message: &str);
}

/// An emitter that drops every notification.
pub struct NoOpEmitter;

impl ProgressEmitter for NoOpEmitter {
    fn emit(&mut self, state: StepState, message: &str) {
    }
}

/// The view of an operator's result: the bytes passed on, as a sequence.
pub open spec fn result_view(r: Result<Option<Vec<u8>>, PipelineError>) -> Result<
    Option<Seq<u8>>,
    PipelineError,
> {
    match r {
        Ok(Some(v)) => Ok(Some(v@)),
        Ok(None) => Ok(None),
        Err(e) => Err(e),
    }
}

/// The view of what an operator is handed: a chunk's bytes, or `None` for the end of
/// the stream.
pub open spec fn chunk_view(chunk: Option<&[u8]>) -> Option<Seq<u8>> {
    match chunk {
        Some(bytes) => Some(bytes@),
        None => None,
    }
}

/// A call an operator received: what it was handed, the context before and after the
/// call, and what it returned.
pub enum OperatorCall {
    Process {
        chunk: Option<Seq<u8>>,
        ctx_before: Map<ContextKind, ContextValue>,
        ctx_after: Map<ContextKind, ContextValue>,
        result: Result<Option<Seq<u8>>, PipelineError>,
    },
    HandleError {
        error: PipelineError,
        ctx_before: Map<ContextKind, ContextValue>,
        ctx_after: Map<ContextKind, ContextValue>,
        result: Result<Option<Seq<u8>>, PipelineError>,
    },
}

impl OperatorCall {
    /// The context the call was handed.
    pub open spec fn ctx_before(self) -> Map<ContextKind, ContextValue> {
        match self {
            OperatorCall::Process { ctx_before, .. } => ctx_before,
            OperatorCall::HandleError { ctx_before, .. } => ctx_before,
        }
    }

    /// The context the call left.
    pub open spec fn ctx_after(self) -> Map<ContextKind, ContextValue> {
        match self {
            OperatorCall::Process { ctx_after, .. } => ctx_after,
            OperatorCall::HandleError { ctx_after, .. } => ctx_after,
        }
    }
}

/// A step of a streaming pipeline. `process` gets each chunk of the stream in turn
/// (`Some`), then `None` once the stream has ended (the flush). Its result is what the
/// next step receives: `Ok(Some(bytes))` passes bytes on, `Ok(None)` passes nothing.
/// `handle_error` gets a chance to recover from an error that `process` returned.
///
/// `is_pass_through` marks an operator that passes every chunk on unchanged and stays
/// such an operator. `calls` is the record of the calls the operator received, oldest
/// first, each with what it returned. `op_name` is what `name` returns.
pub trait StreamOperator<E: ProgressEmitter>: Send + Sync {
    spec fn is_pass_through(&self) -> bool;

    spec fn calls(&self) -> Seq<OperatorCall>;

    /// The operator's name.
    spec fn op_name(&self) -> &'static str;

    fn name(&self) -> (r: &'static str)
        ensures
            r == self.op_name(),
    ;

    fn process(
        &mut self,
        chunk: Option<&[u8]>,
        ctx: &mut PipelineContext,
        emitter: &mut E,
    ) -> (r: Result<Option<Vec<u8>>, PipelineError>)
        ensures
            final(self).calls() == old(self).calls().push(
                OperatorCall::Process {
                    chunk: chunk_view(chunk),
                    ctx_before: old(ctx)@,
                    ctx_after: final(ctx)@,
                    result: result_view(r),
                },
            ),
            old(self).is_pass_through() ==> final(self).is_pass_through(),
            old(self).is_pass_through() && chunk is Some ==> (r matches Ok(Some(out)) && out@
                == chunk.unwrap()@),
    ;

    fn handle_error(
        &mut self,
        err: PipelineError,
        ctx: &mut PipelineContext,
        emitter: &mut E,
    ) -> (r: Result<Option<Vec<u8>>, PipelineError>)
        ensures
            final(self).calls() == old(self).calls().push(
                OperatorCall::HandleError {
                    error: err,
                    ctx_before: old(ctx)@,
                    ctx_after: final(ctx)@,
                    result: result_view(r),
                },
            ),
            old(self).is_pass_through() ==> final(self).is_pass_through(),
    ;
}

/// An operator boxed as a trait object, as pipes hold them.
#[verifier::reject_recursive_types(E)]
pub struct BoxedOperator<E: ProgressEmitter> {
    pub op: Box<dyn StreamOperator<E>>,
}

impl<E: ProgressEmitter> BoxedOperator<E> {
    /// Boxes `op`; the boxed operator answers as `op` does.
    pub fn new<O: StreamOperator<E> + 'static>(op: O) -> (r: Self)
        ensures
            r.op.op_name() == op.op_name(),
            r.op.calls() == op.calls(),
            r.op.is_pass_through() == op.is_pass_through(),
    {
        boxed(op)
    }
}

/// Boxes `op` as a trait object (`Box::new` and the unsizing coercion). The contract
/// claims that the trait object answers as the boxed value does, which is what dynamic
/// dispatch does: same name, same call record, same pass-through mark. Verus does not
/// relate a trait object's spec functions to those of the value boxed into it, so this
/// is stated here rather than proved.
#[verifier::external_body]
fn boxed<E: ProgressEmitter, O: StreamOperator<E> + 'static>(op: O) -> (r: BoxedOperator<E>)
    ensures
        r.op.op_name() == op.op_name(),
        r.op.calls() == op.calls(),
        r.op.is_pass_through() == op.is_pass_through(),
{
    BoxedOperator { op: Box::new(op) }
}

} // verus!
