use std::marker::PhantomData;
use vstd::prelude::*;
use vstd::slice::slice_to_vec;
use crate::shared::utils::streaming::context::{ContextKind, ContextValue, PipelineContext};
use crate::shared::utils::streaming::errors::PipelineError;
use crate::shared::utils::streaming::traits::{
    chunk_view, result_view, OperatorCall, ProgressEmitter, StreamOperator,
};

verus! {

/// What the operators of a pipeline have stored in its context.
pub type ContextMap = Map<ContextKind, ContextValue>;

/// Work done on each chunk; its result is what the operator passes on.
///
/// `next_done` says what a call may do: run on `chunk`, it may move the state from `s0`
/// to `s1` and the context from `c0` to `c1`, returning `r`. A hook that does not define
/// it promises nothing.
pub trait NextHook<T, E>: Send + Sync {
    open spec fn next_done(
        &self,
        chunk: Seq<u8>,
        s0: T,
        s1: T,
        c0: ContextMap,
        c1: ContextMap,
        r: Result<Option<Seq<u8>>, PipelineError>,
    ) -> bool {
        true
    }

    fn call(
        &mut self,
        chunk: &[u8],
        state: &mut T,
        ctx: &mut PipelineContext,
        emitter: &mut E,
    ) -> (r: Result<Option<Vec<u8>>, PipelineError>)
        ensures
            old(self).next_done(chunk@, *old(state), *final(state), old(ctx)@, final(ctx)@, result_view(r)),
    ;
}

/// Work done on each chunk that leaves the chunk itself untouched.
///
/// `chunk_done` says what a call may do, as for `NextHook` (by default, nothing).
pub trait ChunkHook<T, E>: Send + Sync {
    open spec fn chunk_done(
        &self,
        chunk: Seq<u8>,
        s0: T,
        s1: T,
        c0: ContextMap,
        c1: ContextMap,
        r: Result<(), PipelineError>,
    ) -> bool {
        true
    }

    fn call(
        &mut self,
        chunk: &[u8],
        state: &mut T,
        ctx: &mut PipelineContext,
        emitter: &mut E,
    ) -> (r: Result<(), PipelineError>)
        ensures
            old(self).chunk_done(chunk@, *old(state), *final(state), old(ctx)@, final(ctx)@, r),
    ;
}

/// Work done on each chunk that returns the bytes to pass on in its place.
///
/// `transform_done` says what a call may do, as for `NextHook` (by default, nothing).
pub trait TransformHook<T, E>: Send + Sync {
    open spec fn transform_done(
        &self,
        chunk: Seq<u8>,
        s0: T,
        s1: T,
        c0: ContextMap,
        c1: ContextMap,
        r: Result<Seq<u8>, PipelineError>,
    ) -> bool {
        true
    }

    fn call(
        &mut self,
        chunk: &[u8],
        state: &mut T,
        ctx: &mut PipelineContext,
        emitter: &mut E,
    ) -> (r: Result<Vec<u8>, PipelineError>)
        ensures
            old(self).transform_done(
                chunk@,
                *old(state),
                *final(state),
                old(ctx)@,
                final(ctx)@,
                bytes_view(r),
            ),
    ;
}

/// Work done once the stream has ended; its result is what the operator passes on.
///
/// `flush_done` says what a call may do: it may move the state from `s0` to `s1` and
/// the context from `c0` to `c1`, returning `r`. A hook that does not define it promises
/// nothing.
pub trait FlushHook<T, E>: Send + Sync {
    open spec fn flush_done(
        &self,
        s0: T,
        s1: T,
        c0: ContextMap,
        c1: ContextMap,
        r: Result<Option<Seq<u8>>, PipelineError>,
    ) -> bool {
        true
    }

    fn call(&mut self, state: &mut T, ctx: &mut PipelineContext, emitter: &mut E) -> (r: Result<
        Option<Vec<u8>>,
        PipelineError,
    >)
        ensures
            old(self).flush_done(*old(state), *final(state), old(ctx)@, final(ctx)@, result_view(r)),
    ;
}

/// Work done once the stream has ended that passes nothing on.
///
/// `finish_done` says what a call may do, as for `FlushHook` (by default, nothing).
pub trait FinishHook<T, E>: Send + Sync {
    open spec fn finish_done(
        &self,
        s0: T,
        s1: T,
        c0: ContextMap,
        c1: ContextMap,
        r: Result<(), PipelineError>,
    ) -> bool {
        true
    }

    fn call(&mut self, state: &mut T, ctx: &mut PipelineContext, emitter: &mut E) -> (r: Result<
        (),
        PipelineError,
    >)
        ensures
            old(self).finish_done(*old(state), *final(state), old(ctx)@, final(ctx)@, r),
    ;
}

/// Recovery from an error of the operator.
///
/// `recovery_done` says what a call may do when offered `err`: it may move the state
/// from `s0` to `s1` and the context from `c0` to `c1`, returning `r`. A hook that does
/// not define it promises nothing.
pub trait ErrorHook<T, E>: Send + Sync {
    open spec fn recovery_done(
        &self,
        err: PipelineError,
        s0: T,
        s1: T,
        c0: ContextMap,
        c1: ContextMap,
        r: Result<Option<Seq<u8>>, PipelineError>,
    ) -> bool {
        true
    }

    fn call(
        &mut self,
        err: &PipelineError,
        state: &mut T,
        ctx: &mut PipelineContext,
        emitter: &mut E,
    ) -> (r: Result<Option<Vec<u8>>, PipelineError>)
        ensures
            old(self).recovery_done(
                *err,
                *old(state),
                *final(state),
                old(ctx)@,
                final(ctx)@,
                result_view(r),
            ),
    ;
}

/// The view of a hook's new bytes.
pub open spec fn bytes_view(r: Result<Vec<u8>, PipelineError>) -> Result<Seq<u8>, PipelineError> {
    match r {
        Ok(v) => Ok(v@),
        Err(e) => Err(e),
    }
}

/// What an operator passes on for `chunk` once its chunk hook has returned `outcome`.
pub open spec fn forwarded(chunk: Seq<u8>, outcome: Result<(), PipelineError>) -> Result<
    Option<Seq<u8>>,
    PipelineError,
> {
    match outcome {
        Ok(()) => Ok(Some(chunk)),
        Err(e) => Err(e),
    }
}

/// What an operator passes on once its transform hook has returned `outcome`.
pub open spec fn transformed(outcome: Result<Seq<u8>, PipelineError>) -> Result<
    Option<Seq<u8>>,
    PipelineError,
> {
    match outcome {
        Ok(v) => Ok(Some(v)),
        Err(e) => Err(e),
    }
}

/// What an operator passes on once its finish hook has returned `outcome`.
pub open spec fn finished_with(outcome: Result<(), PipelineError>) -> Result<
    Option<Seq<u8>>,
    PipelineError,
> {
    match outcome {
        Ok(()) => Ok(None),
        Err(e) => Err(e),
    }
}

/// Passes `chunk` on when the hook succeeded, or the hook's error.
pub fn forward_chunk(chunk: &[u8], outcome: Result<(), PipelineError>) -> (r: Result<
    Option<Vec<u8>>,
    PipelineError,
>)
    ensures
        result_view(r) == forwarded(chunk@, outcome),
{
    match outcome {
        Ok(()) => Ok(Some(slice_to_vec(chunk))),
        Err(e) => Err(e),
    }
}

/// Passes the transformed bytes on when the hook succeeded, or the hook's error.
pub fn transformed_chunk(outcome: Result<Vec<u8>, PipelineError>) -> (r: Result<
    Option<Vec<u8>>,
    PipelineError,
>)
    ensures
        result_view(r) == transformed(bytes_view(outcome)),
{
    match outcome {
        Ok(v) => Ok(Some(v)),
        Err(e) => Err(e),
    }
}

/// Passes nothing on when the hook succeeded, or the hook's error.
pub fn finished(outcome: Result<(), PipelineError>) -> (r: Result<Option<Vec<u8>>, PipelineError>)
    ensures
        result_view(r) == finished_with(outcome),
{
    match outcome {
        Ok(()) => Ok(None),
        Err(e) => Err(e),
    }
}

/// How an operator treats each chunk. `step_done` says what a run on `chunk` may do, as
/// for `NextHook`; a pass-through step passes the chunk on unchanged and stays one.
pub trait ChunkStep<T, E>: Send + Sync {
    spec fn passes_through(&self) -> bool;

    spec fn step_done(
        &self,
        chunk: Seq<u8>,
        s0: T,
        s1: T,
        c0: ContextMap,
        c1: ContextMap,
        r: Result<Option<Seq<u8>>, PipelineError>,
    ) -> bool;

    fn run(
        &mut self,
        chunk: &[u8],
        state: &mut T,
        ctx: &mut PipelineContext,
        emitter: &mut E,
    ) -> (r: Result<Option<Vec<u8>>, PipelineError>)
        ensures
            old(self).step_done(chunk@, *old(state), *final(state), old(ctx)@, final(ctx)@, result_view(r)),
            old(self).passes_through() ==> final(self).passes_through(),
            old(self).passes_through() ==> (r matches Ok(Some(out)) && out@ == chunk@),
    ;
}

/// How an operator treats the end of the stream. `flush_step_done` says what a run may
/// do, as for `FlushHook`.
pub trait FlushStep<T, E>: Send + Sync {
    spec fn flush_step_done(
        &self,
        s0: T,
        s1: T,
        c0: ContextMap,
        c1: ContextMap,
        r: Result<Option<Seq<u8>>, PipelineError>,
    ) -> bool;

    fn run(&mut self, state: &mut T, ctx: &mut PipelineContext, emitter: &mut E) -> (r: Result<
        Option<Vec<u8>>,
        PipelineError,
    >)
        ensures
            old(self).flush_step_done(
                *old(state),
                *final(state),
                old(ctx)@,
                final(ctx)@,
                result_view(r),
            ),
    ;
}

/// How an operator treats its errors. `recovery_step_done` says what a run offered
/// `err` may do, as for `ErrorHook`.
pub trait ErrorStep<T, E>: Send + Sync {
    spec fn recovery_step_done(
        &self,
        err: PipelineError,
        s0: T,
        s1: T,
        c0: ContextMap,
        c1: ContextMap,
        r: Result<Option<Seq<u8>>, PipelineError>,
    ) -> bool;

    fn run(
        &mut self,
        err: PipelineError,
        state: &mut T,
        ctx: &mut PipelineContext,
        emitter: &mut E,
    ) -> (r: Result<Option<Vec<u8>>, PipelineError>)
        ensures
            old(self).recovery_step_done(
                err,
                *old(state),
                *final(state),
                old(ctx)@,
                final(ctx)@,
                result_view(r),
            ),
    ;
}

/// Chunks pass on unchanged; nothing else happens.
pub struct PassThrough;

/// The hook decides what is passed on for each chunk.
pub struct OnNext<H>(pub H);

/// The hook runs on each chunk; on success the chunk is passed on unchanged.
pub struct Forward<H>(pub H);

/// The hook runs on each chunk; on success its bytes are passed on.
pub struct Transform<H>(pub H);

/// Nothing is done at the end of the stream and nothing is passed on.
pub struct NoFlush;

/// The hook decides what is passed on at the end of the stream.
pub struct OnComplete<H>(pub H);

/// The hook runs at the end of the stream; on success nothing is passed on.
pub struct Finish<H>(pub H);

/// Errors are given back as they are.
pub struct NoRecovery;

/// The hook may recover from an error.
pub struct OnError<H>(pub H);

impl<T, E> ChunkStep<T, E> for PassThrough {
    open spec fn passes_through(&self) -> bool {
        true
    }

    open spec fn step_done(
        &self,
        chunk: Seq<u8>,
        s0: T,
        s1: T,
        c0: ContextMap,
        c1: ContextMap,
        r: Result<Option<Seq<u8>>, PipelineError>,
    ) -> bool {
        &&& r == Ok::<Option<Seq<u8>>, PipelineError>(Some(chunk))
        &&& s1 == s0
        &&& c1 == c0
    }

    fn run(
        &mut self,
        chunk: &[u8],
        state: &mut T,
        ctx: &mut PipelineContext,
        emitter: &mut E,
    ) -> (r: Result<Option<Vec<u8>>, PipelineError>) {
        Ok(Some(slice_to_vec(chunk)))
    }
}

impl<T, E, H: NextHook<T, E>> ChunkStep<T, E> for OnNext<H> {
    open spec fn passes_through(&self) -> bool {
        false
    }

    open spec fn step_done(
        &self,
        chunk: Seq<u8>,
        s0: T,
        s1: T,
        c0: ContextMap,
        c1: ContextMap,
        r: Result<Option<Seq<u8>>, PipelineError>,
    ) -> bool {
        self.0.next_done(chunk, s0, s1, c0, c1, r)
    }

    fn run(
        &mut self,
        chunk: &[u8],
        state: &mut T,
        ctx: &mut PipelineContext,
        emitter: &mut E,
    ) -> (r: Result<Option<Vec<u8>>, PipelineError>) {
        self.0.call(chunk, state, ctx, emitter)
    }
}

impl<T, E, H: ChunkHook<T, E>> ChunkStep<T, E> for Forward<H> {
    open spec fn passes_through(&self) -> bool {
        false
    }

    open spec fn step_done(
        &self,
        chunk: Seq<u8>,
        s0: T,
        s1: T,
        c0: ContextMap,
        c1: ContextMap,
        r: Result<Option<Seq<u8>>, PipelineError>,
    ) -> bool {
        exists|outcome: Result<(), PipelineError>|
            self.0.chunk_done(chunk, s0, s1, c0, c1, outcome) && r == forwarded(chunk, outcome)
    }

    fn run(
        &mut self,
        chunk: &[u8],
        state: &mut T,
        ctx: &mut PipelineContext,
        emitter: &mut E,
    ) -> (r: Result<Option<Vec<u8>>, PipelineError>) {
        let outcome = self.0.call(chunk, state, ctx, emitter);
        forward_chunk(chunk, outcome)
    }
}

impl<T, E, H: TransformHook<T, E>> ChunkStep<T, E> for Transform<H> {
    open spec fn passes_through(&self) -> bool {
        false
    }

    open spec fn step_done(
        &self,
        chunk: Seq<u8>,
        s0: T,
        s1: T,
        c0: ContextMap,
        c1: ContextMap,
        r: Result<Option<Seq<u8>>, PipelineError>,
    ) -> bool {
        exists|outcome: Result<Seq<u8>, PipelineError>|
            self.0.transform_done(chunk, s0, s1, c0, c1, outcome) && r == transformed(outcome)
    }

    fn run(
        &mut self,
        chunk: &[u8],
        state: &mut T,
        ctx: &mut PipelineContext,
        emitter: &mut E,
    ) -> (r: Result<Option<Vec<u8>>, PipelineError>) {
        let outcome = self.0.call(chunk, state, ctx, emitter);
        transformed_chunk(outcome)
    }
}

impl<T, E> FlushStep<T, E> for NoFlush {
    open spec fn flush_step_done(
        &self,
        s0: T,
        s1: T,
        c0: ContextMap,
        c1: ContextMap,
        r: Result<Option<Seq<u8>>, PipelineError>,
    ) -> bool {
        &&& r == Ok::<Option<Seq<u8>>, PipelineError>(None)
        &&& s1 == s0
        &&& c1 == c0
    }

    fn run(&mut self, state: &mut T, ctx: &mut PipelineContext, emitter: &mut E) -> (r: Result<
        Option<Vec<u8>>,
        PipelineError,
    >) {
        Ok(None)
    }
}

impl<T, E, H: FlushHook<T, E>> FlushStep<T, E> for OnComplete<H> {
    open spec fn flush_step_done(
        &self,
        s0: T,
        s1: T,
        c0: ContextMap,
        c1: ContextMap,
        r: Result<Option<Seq<u8>>, PipelineError>,
    ) -> bool {
        self.0.flush_done(s0, s1, c0, c1, r)
    }

    fn run(&mut self, state: &mut T, ctx: &mut PipelineContext, emitter: &mut E) -> (r: Result<
        Option<Vec<u8>>,
        PipelineError,
    >) {
        self.0.call(state, ctx, emitter)
    }
}

impl<T, E, H: FinishHook<T, E>> FlushStep<T, E> for Finish<H> {
    open spec fn flush_step_done(
        &self,
        s0: T,
        s1: T,
        c0: ContextMap,
        c1: ContextMap,
        r: Result<Option<Seq<u8>>, PipelineError>,
    ) -> bool {
        exists|outcome: Result<(), PipelineError>|
            self.0.finish_done(s0, s1, c0, c1, outcome) && r == finished_with(outcome)
    }

    fn run(&mut self, state: &mut T, ctx: &mut PipelineContext, emitter: &mut E) -> (r: Result<
        Option<Vec<u8>>,
        PipelineError,
    >) {
        let outcome = self.0.call(state, ctx, emitter);
        finished(outcome)
    }
}

impl<T, E> ErrorStep<T, E> for NoRecovery {
    open spec fn recovery_step_done(
        &self,
        err: PipelineError,
        s0: T,
        s1: T,
        c0: ContextMap,
        c1: ContextMap,
        r: Result<Option<Seq<u8>>, PipelineError>,
    ) -> bool {
        &&& r == Err::<Option<Seq<u8>>, PipelineError>(err)
        &&& s1 == s0
        &&& c1 == c0
    }

    fn run(
        &mut self,
        err: PipelineError,
        state: &mut T,
        ctx: &mut PipelineContext,
        emitter: &mut E,
    ) -> (r: Result<Option<Vec<u8>>, PipelineError>) {
        Err(err)
    }
}

impl<T, E, H: ErrorHook<T, E>> ErrorStep<T, E> for OnError<H> {
    open spec fn recovery_step_done(
        &self,
        err: PipelineError,
        s0: T,
        s1: T,
        c0: ContextMap,
        c1: ContextMap,
        r: Result<Option<Seq<u8>>, PipelineError>,
    ) -> bool {
        self.0.recovery_done(err, s0, s1, c0, c1, r)
    }

    fn run(
        &mut self,
        err: PipelineError,
        state: &mut T,
        ctx: &mut PipelineContext,
        emitter: &mut E,
    ) -> (r: Result<Option<Vec<u8>>, PipelineError>) {
        self.0.call(&err, state, ctx, emitter)
    }
}

/// An operator assembled from a step for each event of a stream's life: each chunk
/// (`N`), the end of the stream (`F`), and errors (`X`). It carries a state `T` that
/// its hooks share. Built by `new` or `with_state`, then configured by the builder
/// methods (`do_it`, `on_complete`, `extract_it`, ...), each of which replaces one step.
#[verifier::reject_recursive_types(T)]
#[verifier::reject_recursive_types(E)]
pub struct FnOperator<T, E, N, F, X> {
    name: &'static str,
    state: T,
    on_next: N,
    on_flush: F,
    on_error: X,
    emitter: PhantomData<E>,
    calls: Ghost<Seq<OperatorCall>>,
}

impl<E: ProgressEmitter> FnOperator<(), E, PassThrough, NoFlush, NoRecovery> {
    /// An operator without state that passes chunks on unchanged, does nothing at the
    /// end of the stream and gives errors back.
    pub fn new(name: &'static str) -> (r: FnOperator<(), E, PassThrough, NoFlush, NoRecovery>)
        ensures
            r.spec_name() == name,
            r.call_record() == Seq::<OperatorCall>::empty(),
    {
        FnOperator {
            name,
            state: (),
            on_next: PassThrough,
            on_flush: NoFlush,
            on_error: NoRecovery,
            emitter: PhantomData,
            calls: Ghost(Seq::empty()),
        }
    }

    /// As `new`, with the state `state` for its hooks.
    pub fn with_state<T>(name: &'static str, state: T) -> (r: FnOperator<
        T,
        E,
        PassThrough,
        NoFlush,
        NoRecovery,
    >)
        ensures
            r.spec_name() == name,
            r.spec_state() == state,
            r.call_record() == Seq::<OperatorCall>::empty(),
    {
        FnOperator {
            name,
            state,
            on_next: PassThrough,
            on_flush: NoFlush,
            on_error: NoRecovery,
            emitter: PhantomData,
            calls: Ghost(Seq::empty()),
        }
    }
}

impl<T, E: ProgressEmitter, N, F, X> FnOperator<T, E, N, F, X> {
    pub closed spec fn spec_name(&self) -> &'static str {
        self.name
    }

    pub closed spec fn spec_state(&self) -> T {
        self.state
    }

    /// The step run on each chunk.
    pub closed spec fn spec_next(&self) -> N {
        self.on_next
    }

    /// The step run at the end of the stream.
    pub closed spec fn spec_flush(&self) -> F {
        self.on_flush
    }

    /// The step run on an error.
    pub closed spec fn spec_recovery(&self) -> X {
        self.on_error
    }

    /// The calls received so far (see `StreamOperator::calls`).
    pub closed spec fn call_record(&self) -> Seq<OperatorCall> {
        self.calls@
    }

    /// Sets the hook that decides what is passed on for each chunk.
    pub fn on_next<H: NextHook<T, E>>(self, hook: H) -> (r: FnOperator<T, E, OnNext<H>, F, X>)
        ensures
            r.spec_name() == self.spec_name(),
            r.spec_state() == self.spec_state(),
            r.spec_next() == OnNext(hook),
            r.spec_flush() == self.spec_flush(),
            r.spec_recovery() == self.spec_recovery(),
            r.call_record() == self.call_record(),
    {
        FnOperator {
            name: self.name,
            state: self.state,
            on_next: OnNext(hook),
            on_flush: self.on_flush,
            on_error: self.on_error,
            emitter: PhantomData,
            calls: self.calls,
        }
    }

    /// Sets a hook run on each chunk; the chunk is passed on unchanged when it succeeds.
    pub fn do_it<H: ChunkHook<T, E>>(self, hook: H) -> (r: FnOperator<T, E, Forward<H>, F, X>)
        ensures
            r.spec_name() == self.spec_name(),
            r.spec_state() == self.spec_state(),
            r.spec_next() == Forward(hook),
            r.spec_flush() == self.spec_flush(),
            r.spec_recovery() == self.spec_recovery(),
            r.call_record() == self.call_record(),
    {
        FnOperator {
            name: self.name,
            state: self.state,
            on_next: Forward(hook),
            on_flush: self.on_flush,
            on_error: self.on_error,
            emitter: PhantomData,
            calls: self.calls,
        }
    }

    /// Sets the hook that decides what is passed on at the end of the stream.
    pub fn on_complete<H: FlushHook<T, E>>(self, hook: H) -> (r: FnOperator<
        T,
        E,
        N,
        OnComplete<H>,
        X,
    >)
        ensures
            r.spec_name() == self.spec_name(),
            r.spec_state() == self.spec_state(),
            r.spec_next() == self.spec_next(),
            r.spec_flush() == OnComplete(hook),
            r.spec_recovery() == self.spec_recovery(),
            r.call_record() == self.call_record(),
    {
        FnOperator {
            name: self.name,
            state: self.state,
            on_next: self.on_next,
            on_flush: OnComplete(hook),
            on_error: self.on_error,
            emitter: PhantomData,
            calls: self.calls,
        }
    }

    /// Sets the hook that may recover from an error of the operator.
    pub fn on_error<H: ErrorHook<T, E>>(self, hook: H) -> (r: FnOperator<T, E, N, F, OnError<H>>)
        ensures
            r.spec_name() == self.spec_name(),
            r.spec_state() == self.spec_state(),
            r.spec_next() == self.spec_next(),
            r.spec_flush() == self.spec_flush(),
            r.spec_recovery() == OnError(hook),
            r.call_record() == self.call_record(),
    {
        FnOperator {
            name: self.name,
            state: self.state,
            on_next: self.on_next,
            on_flush: self.on_flush,
            on_error: OnError(hook),
            emitter: PhantomData,
            calls: self.calls,
        }
    }

    /// Replaces the chunk step.
    pub(crate) fn with_next<N2>(self, next: N2) -> (r: FnOperator<T, E, N2, F, X>)
        ensures
            r.spec_name() == self.spec_name(),
            r.spec_state() == self.spec_state(),
            r.spec_next() == next,
            r.spec_flush() == self.spec_flush(),
            r.spec_recovery() == self.spec_recovery(),
            r.call_record() == self.call_record(),
    {
        FnOperator {
            name: self.name,
            state: self.state,
            on_next: next,
            on_flush: self.on_flush,
            on_error: self.on_error,
            emitter: PhantomData,
            calls: self.calls,
        }
    }

    /// Replaces both the chunk step and the end-of-stream step.
    pub(crate) fn with_steps<N2, F2>(self, next: N2, flush: F2) -> (r: FnOperator<T, E, N2, F2, X>)
        ensures
            r.spec_name() == self.spec_name(),
            r.spec_state() == self.spec_state(),
            r.spec_next() == next,
            r.spec_flush() == flush,
            r.spec_recovery() == self.spec_recovery(),
            r.call_record() == self.call_record(),
    {
        FnOperator {
            name: self.name,
            state: self.state,
            on_next: next,
            on_flush: flush,
            on_error: self.on_error,
            emitter: PhantomData,
            calls: self.calls,
        }
    }
}

impl<
    T: Send + Sync,
    E: ProgressEmitter,
    N: ChunkStep<T, E>,
    F: FlushStep<T, E>,
    X: ErrorStep<T, E>,
> StreamOperator<E> for FnOperator<T, E, N, F, X> {
    /// An operator whose chunk step passes chunks through does so.
    open spec fn is_pass_through(&self) -> bool {
        self.spec_next().passes_through()
    }

    open spec fn calls(&self) -> Seq<OperatorCall> {
        self.call_record()
    }

    open spec fn op_name(&self) -> &'static str {
        self.spec_name()
    }

    fn name(&self) -> (r: &'static str) {
        self.name
    }

    /// Runs the step for the event: the chunk step for `Some`, the end-of-stream step
    /// for `None`, on the operator's state and the context.
    fn process(
        &mut self,
        chunk: Option<&[u8]>,
        ctx: &mut PipelineContext,
        emitter: &mut E,
    ) -> (r: Result<Option<Vec<u8>>, PipelineError>)
        ensures
            final(self).spec_name() == old(self).spec_name(),
            final(self).spec_recovery() == old(self).spec_recovery(),
            final(self).call_record() == old(self).call_record().push(
                OperatorCall::Process {
                    chunk: chunk_view(chunk),
                    ctx_before: old(ctx)@,
                    ctx_after: final(ctx)@,
                    result: result_view(r),
                },
            ),
            chunk matches Some(bytes) ==> {
                &&& old(self).spec_next().step_done(
                    bytes@,
                    old(self).spec_state(),
                    final(self).spec_state(),
                    old(ctx)@,
                    final(ctx)@,
                    result_view(r),
                )
                &&& final(self).spec_flush() == old(self).spec_flush()
            },
            chunk is None ==> {
                &&& old(self).spec_flush().flush_step_done(
                    old(self).spec_state(),
                    final(self).spec_state(),
                    old(ctx)@,
                    final(ctx)@,
                    result_view(r),
                )
                &&& final(self).spec_next() == old(self).spec_next()
            },
    {
        let ghost c0 = ctx@;
        let r = match chunk {
            Some(bytes) => self.on_next.run(bytes, &mut self.state, ctx, emitter),
            None => self.on_flush.run(&mut self.state, ctx, emitter),
        };
        self.calls = Ghost(
            self.calls@.push(
                OperatorCall::Process {
                    chunk: chunk_view(chunk),
                    ctx_before: c0,
                    ctx_after: ctx@,
                    result: result_view(r),
                },
            ),
        );
        r
    }

    /// Runs the error step on the operator's state and the context.
    fn handle_error(
        &mut self,
        err: PipelineError,
        ctx: &mut PipelineContext,
        emitter: &mut E,
    ) -> (r: Result<Option<Vec<u8>>, PipelineError>)
        ensures
            final(self).spec_name() == old(self).spec_name(),
            final(self).spec_next() == old(self).spec_next(),
            final(self).spec_flush() == old(self).spec_flush(),
            final(self).call_record() == old(self).call_record().push(
                OperatorCall::HandleError {
                    error: err,
                    ctx_before: old(ctx)@,
                    ctx_after: final(ctx)@,
                    result: result_view(r),
                },
            ),
            old(self).spec_recovery().recovery_step_done(
                err,
                old(self).spec_state(),
                final(self).spec_state(),
                old(ctx)@,
                final(ctx)@,
                result_view(r),
            ),
    {
        let ghost error = err;
        let ghost c0 = ctx@;
        let r = self.on_error.run(err, &mut self.state, ctx, emitter);
        self.calls = Ghost(
            self.calls@.push(
                OperatorCall::HandleError {
                    error: error,
                    ctx_before: c0,
                    ctx_after: ctx@,
                    result: result_view(r),
                },
            ),
        );
        r
    }
}

} // verus!
