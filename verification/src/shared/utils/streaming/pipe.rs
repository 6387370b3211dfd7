use vstd::prelude::*;
use vstd::slice::slice_to_vec;
use vstd::string::StringExecFns;
use crate::shared::utils::operators::builder::ContextMap;
use crate::shared::utils::streaming::context::{ContextKind, ContextValue, PipelineContext};
use crate::shared::utils::streaming::errors::PipelineError;
use crate::shared::utils::streaming::traits::{
    chunk_view, result_view, BoxedOperator, OperatorCall, ProgressEmitter, StepState,
    StreamOperator,
};

verus! {

/// An ordered list of operators, itself usable as one operator: each chunk runs through
/// the operators in turn, the output of one being the input of the next.
#[verifier::reject_recursive_types(E)]
pub struct StreamPipe<E: ProgressEmitter> {
    name: &'static str,
    pub(crate) operators: Vec<BoxedOperator<E>>,
    calls: Ghost<Seq<OperatorCall>>,
}

/// What operator `i` is handed when `input` runs through `ops`: `input` itself for the
/// first operator, else what the operator before it passed on in its last call.
pub open spec fn handed<E: ProgressEmitter>(
    ops: Seq<BoxedOperator<E>>,
    input: Option<Seq<u8>>,
    i: int,
) -> Option<Seq<u8>> {
    if i == 0 {
        input
    } else {
        match ops[i - 1].op.calls().last() {
            OperatorCall::Process { result: Ok(out), .. } => out,
            _ => None,
        }
    }
}

/// The context operator `i` is handed in a run through `ops` that started with context
/// `c0`: `c0` for the first operator, else the one the operator before it left in its
/// last call.
pub open spec fn ctx_handed<E: ProgressEmitter>(
    ops: Seq<BoxedOperator<E>>,
    c0: ContextMap,
    i: int,
) -> ContextMap {
    if i == 0 {
        c0
    } else {
        ops[i - 1].op.calls().last().ctx_after()
    }
}

/// Operator `j` received exactly one more call: `chunk` was processed with context `c`,
/// and something passed on.
pub open spec fn processed_ok<E: ProgressEmitter>(
    before: Seq<BoxedOperator<E>>,
    after: Seq<BoxedOperator<E>>,
    j: int,
    chunk: Option<Seq<u8>>,
    c: ContextMap,
) -> bool {
    &&& after[j].op.calls() == before[j].op.calls().push(after[j].op.calls().last())
    &&& after[j].op.calls().last() matches OperatorCall::Process {
        chunk: ch,
        ctx_before: cb,
        result: Ok(_),
        ..
    } && ch == chunk && cb == c
}

/// Operator `k` received exactly two more calls: processing `chunk` with context `c`
/// failed, and its error handler, handed the context the failed call left, returned
/// `handled` and left `c_end`.
pub open spec fn failed_then_handled<E: ProgressEmitter>(
    before: Seq<BoxedOperator<E>>,
    after: Seq<BoxedOperator<E>>,
    k: int,
    chunk: Option<Seq<u8>>,
    c: ContextMap,
    handled: Result<Option<Seq<u8>>, PipelineError>,
    c_end: ContextMap,
) -> bool {
    exists|e: PipelineError, m: ContextMap|
        after[k].op.calls() == before[k].op.calls().push(
            OperatorCall::Process {
                chunk: chunk,
                ctx_before: c,
                ctx_after: m,
                result: Err::<Option<Seq<u8>>, PipelineError>(e),
            },
        ).push(OperatorCall::HandleError { error: e, ctx_before: m, ctx_after: c_end, result: handled })
}

/// The operators from `k` on were not called.
pub open spec fn untouched_from<E: ProgressEmitter>(
    before: Seq<BoxedOperator<E>>,
    after: Seq<BoxedOperator<E>>,
    k: int,
) -> bool {
    &&& after.len() == before.len()
    &&& forall|j: int| k <= j < before.len() ==> after[j] == before[j]
}

/// Each of the first `k` operators processed what it was handed when `input` ran through
/// the list from context `c0`, with the context it was handed, and passed something on.
pub open spec fn chain_ran<E: ProgressEmitter>(
    before: Seq<BoxedOperator<E>>,
    after: Seq<BoxedOperator<E>>,
    input: Option<Seq<u8>>,
    c0: ContextMap,
    k: int,
) -> bool {
    &&& 0 <= k <= before.len()
    &&& after.len() == before.len()
    &&& forall|j: int| 0 <= j < k ==> handed(after, input, j) is Some
    &&& forall|j: int|
        0 <= j < k ==> #[trigger] processed_ok(
            before,
            after,
            j,
            handed(after, input, j),
            ctx_handed(after, c0, j),
        )
}

/// The run of `input` through the list from context `c0` stopped before operator `k`,
/// leaving context `c_end`: every operator ran, or the one before `k` passed nothing on.
pub open spec fn chain_stopped<E: ProgressEmitter>(
    before: Seq<BoxedOperator<E>>,
    after: Seq<BoxedOperator<E>>,
    input: Option<Seq<u8>>,
    c0: ContextMap,
    k: int,
    c_end: ContextMap,
) -> bool {
    &&& chain_ran(before, after, input, c0, k)
    &&& (k == before.len() || handed(after, input, k) is None)
    &&& untouched_from(before, after, k)
    &&& c_end == ctx_handed(after, c0, k)
}

/// The run of `input` through the list from context `c0` reached operator `k`, whose
/// processing failed; its error handler returned `handled` and left context `c_end`.
pub open spec fn chain_failed<E: ProgressEmitter>(
    before: Seq<BoxedOperator<E>>,
    after: Seq<BoxedOperator<E>>,
    input: Option<Seq<u8>>,
    c0: ContextMap,
    k: int,
    handled: Result<Option<Seq<u8>>, PipelineError>,
    c_end: ContextMap,
) -> bool {
    &&& chain_ran(before, after, input, c0, k)
    &&& k < before.len()
    &&& handed(after, input, k) is Some
    &&& failed_then_handled(
        before,
        after,
        k,
        handed(after, input, k),
        ctx_handed(after, c0, k),
        handled,
        c_end,
    )
    &&& untouched_from(before, after, k + 1)
}

/// Each of the first `k` operators was told of the end of the stream, with the context
/// it was handed in a run from `c0`, and passed something on.
pub open spec fn flush_ran<E: ProgressEmitter>(
    before: Seq<BoxedOperator<E>>,
    after: Seq<BoxedOperator<E>>,
    c0: ContextMap,
    k: int,
) -> bool {
    &&& 0 <= k <= before.len()
    &&& after.len() == before.len()
    &&& forall|j: int|
        0 <= j < k ==> #[trigger] processed_ok(before, after, j, None, ctx_handed(after, c0, j))
}

/// Telling the list of the end of the stream, from context `c0`, reached operator `k`,
/// which failed; its error handler returned `handled` and left context `c_end`.
pub open spec fn flush_failed<E: ProgressEmitter>(
    before: Seq<BoxedOperator<E>>,
    after: Seq<BoxedOperator<E>>,
    c0: ContextMap,
    k: int,
    handled: Result<Option<Seq<u8>>, PipelineError>,
    c_end: ContextMap,
) -> bool {
    &&& flush_ran(before, after, c0, k)
    &&& k < before.len()
    &&& failed_then_handled(before, after, k, None, ctx_handed(after, c0, k), handled, c_end)
    &&& untouched_from(before, after, k + 1)
}

/// Operator `j` received exactly one more call: it was offered `err` with context `c` and
/// did not recover from it.
pub open spec fn refused<E: ProgressEmitter>(
    before: Seq<BoxedOperator<E>>,
    after: Seq<BoxedOperator<E>>,
    j: int,
    err: PipelineError,
    c: ContextMap,
) -> bool {
    &&& after[j].op.calls() == before[j].op.calls().push(after[j].op.calls().last())
    &&& after[j].op.calls().last() matches OperatorCall::HandleError {
        error: x,
        ctx_before: cb,
        result: Err(_),
        ..
    } && x == err && cb == c
}

/// Each of the first `k` operators was offered `err`, with the context it was handed in a
/// run from `c0`, and did not recover from it.
pub open spec fn recovery_refused<E: ProgressEmitter>(
    before: Seq<BoxedOperator<E>>,
    after: Seq<BoxedOperator<E>>,
    err: PipelineError,
    c0: ContextMap,
    k: int,
) -> bool {
    &&& 0 <= k <= before.len()
    &&& after.len() == before.len()
    &&& forall|j: int|
        0 <= j < k ==> #[trigger] refused(before, after, j, err, ctx_handed(after, c0, j))
}

/// Every operator of `after` that was a pass-through operator in `before` still is.
pub open spec fn keeps_pass_through<E: ProgressEmitter>(
    before: Seq<BoxedOperator<E>>,
    after: Seq<BoxedOperator<E>>,
) -> bool {
    &&& after.len() == before.len()
    &&& forall|j: int|
        0 <= j < before.len() && (#[trigger] before[j]).op.is_pass_through()
            ==> after[j].op.is_pass_through()
}

/// Every operator of `ops` passes chunks through unchanged.
pub open spec fn all_pass_through<E: ProgressEmitter>(ops: Seq<BoxedOperator<E>>) -> bool {
    forall|j: int| 0 <= j < ops.len() ==> (#[trigger] ops[j]).op.is_pass_through()
}

/// Pass-through operators stay pass-through ones, so a list made only of them still is.
pub proof fn lemma_all_pass_through_kept<E: ProgressEmitter>(
    before: Seq<BoxedOperator<E>>,
    after: Seq<BoxedOperator<E>>,
)
    requires
        keeps_pass_through(before, after),
        all_pass_through(before),
    ensures
        all_pass_through(after),
{
    assert forall|j: int| 0 <= j < after.len() implies (#[trigger] after[j]).op.is_pass_through() by {
        assert(before[j].op.is_pass_through());
    }
}

/// Another name for `StreamPipe`.
pub type Pipe<E> = StreamPipe<E>;

impl<E: ProgressEmitter + 'static> StreamPipe<E> {
    pub closed spec fn spec_name(&self) -> &'static str {
        self.name
    }

    /// The operators, in order.
    pub closed spec fn ops(&self) -> Seq<BoxedOperator<E>> {
        self.operators@
    }

    /// A pipe named `name` made of `operators`.
    pub fn new(name: &'static str, operators: Vec<BoxedOperator<E>>) -> (r: Self)
        ensures
            r.spec_name() == name,
            r.ops() == operators@,
    {
        StreamPipe { name, operators, calls: Ghost(Seq::empty()) }
    }

    /// A pipe with the default name `stream_pipe`.
    pub fn with_operators(operators: Vec<BoxedOperator<E>>) -> (r: Self)
        ensures
            r.spec_name()@ == "stream_pipe"@,
            r.ops() == operators@,
    {
        Self::new("stream_pipe", operators)
    }

    /// Appends an operator at the end of the pipe.
    pub fn add_operator(&mut self, operator: BoxedOperator<E>)
        ensures
            final(self).spec_name() == old(self).spec_name(),
            final(self).ops() == old(self).ops().push(operator),
            final(self).ops().len() == old(self).ops().len() + 1,
            final(self).ops().last() == operator,
            forall|i: int| 0 <= i < old(self).ops().len() ==> final(self).ops()[i] == old(self).ops()[i],
    {
        self.operators.push(operator);
    }

    /// The operators, in order.
    pub fn operators(&self) -> (r: &[BoxedOperator<E>])
        ensures
            r@ == self.ops(),
    {
        self.operators.as_slice()
    }

    /// The operators, in order, for change in place.
    pub fn operators_mut(&mut self) -> (r: &mut [BoxedOperator<E>])
        ensures
            r@ == old(self).ops(),
            final(self).ops() == final(r)@,
            final(self).spec_name() == old(self).spec_name(),
    {
        self.operators.as_mut_slice()
    }

    /// Number of operators.
    pub fn len(&self) -> (r: usize)
        ensures
            r == self.ops().len(),
    {
        self.operators.len()
    }
}

impl<E: ProgressEmitter + 'static> From<Vec<BoxedOperator<E>>> for StreamPipe<E> {
    /// A pipe with the default name, made of `operators`.
    fn from(operators: Vec<BoxedOperator<E>>) -> (r: Self)
        ensures
            r.spec_name()@ == "stream_pipe"@,
            r.ops() == operators@,
    {
        StreamPipe { name: "stream_pipe", operators, calls: Ghost(Seq::empty()) }
    }
}

impl<E: ProgressEmitter + 'static> vstd::std_specs::convert::FromSpecImpl<Vec<BoxedOperator<E>>> for StreamPipe<E> {
    open spec fn obeys_from_spec() -> bool {
        true
    }

    closed spec fn from_spec(operators: Vec<BoxedOperator<E>>) -> Self {
        StreamPipe { name: "stream_pipe", operators, calls: Ghost(Seq::empty()) }
    }
}

/// What converting a list of operators into a pipe gives: a pipe with the default name
/// made of those operators.
pub proof fn lemma_pipe_from_spec<E: ProgressEmitter + 'static>(
    operators: Vec<BoxedOperator<E>>,
)
    ensures
        <StreamPipe<E> as vstd::std_specs::convert::FromSpec<
            Vec<BoxedOperator<E>>,
        >>::from_spec(operators).spec_name()@ == "stream_pipe"@,
        <StreamPipe<E> as vstd::std_specs::convert::FromSpec<
            Vec<BoxedOperator<E>>,
        >>::from_spec(operators).ops() == operators@,
{
}

/// The view of an optional chunk.
pub open spec fn opt_view(v: Option<Vec<u8>>) -> Option<Seq<u8>> {
    match v {
        Some(b) => Some(b@),
        None => None,
    }
}

/// How a run of `input` through the list `before` (leaving it as `after`), handed context
/// `c0`, may end with result `r` and context `c_end`: it stopped, passing on what the
/// last operator reached passed on, or an operator failed and its error handler's result
/// is the result. Each operator is handed the context the one before it left.
pub open spec fn chain_outcome<E: ProgressEmitter>(
    before: Seq<BoxedOperator<E>>,
    after: Seq<BoxedOperator<E>>,
    input: Option<Seq<u8>>,
    c0: ContextMap,
    c_end: ContextMap,
    r: Result<Option<Seq<u8>>, PipelineError>,
) -> bool {
    exists|k: int|
        #![trigger chain_stopped(before, after, input, c0, k, c_end)]
        #![trigger chain_failed(before, after, input, c0, k, r, c_end)]
        (chain_stopped(before, after, input, c0, k, c_end) && r == Ok::<
            Option<Seq<u8>>,
            PipelineError,
        >(handed(after, input, k))) || chain_failed(before, after, input, c0, k, r, c_end)
}

/// How telling the list `before` of the end of the stream, handed context `c0`, may end
/// with result `r` and context `c_end`: every operator passed something on, nothing is
/// passed on and the context is the one the last operator left; or an operator failed and
/// its error handler's result is the result.
pub open spec fn flush_outcome<E: ProgressEmitter>(
    before: Seq<BoxedOperator<E>>,
    after: Seq<BoxedOperator<E>>,
    c0: ContextMap,
    c_end: ContextMap,
    r: Result<Option<Seq<u8>>, PipelineError>,
) -> bool {
    ||| flush_ran(before, after, c0, before.len() as int) && c_end == ctx_handed(
        after,
        c0,
        before.len() as int,
    ) && r == Ok::<Option<Seq<u8>>, PipelineError>(None)
    ||| exists|k: int| #[trigger] flush_failed(before, after, c0, k, r, c_end)
}

/// How offering `err` to the list `before`, handed context `c0`, may end with result `r`
/// and context `c_end`: the first operator that recovers gives the result, and when none
/// does the error comes back.
pub open spec fn recovery_outcome<E: ProgressEmitter>(
    before: Seq<BoxedOperator<E>>,
    after: Seq<BoxedOperator<E>>,
    err: PipelineError,
    c0: ContextMap,
    c_end: ContextMap,
    r: Result<Option<Seq<u8>>, PipelineError>,
) -> bool {
    exists|k: int|
        #[trigger] recovery_refused(before, after, err, c0, k) && ((k == before.len() && r
            == Err::<Option<Seq<u8>>, PipelineError>(err) && c_end == ctx_handed(after, c0, k))
            || (k < before.len() && r is Ok && after[k].op.calls() == before[k].op.calls().push(
            OperatorCall::HandleError {
                error: err,
                ctx_before: ctx_handed(after, c0, k),
                ctx_after: c_end,
                result: r,
            },
        ) && untouched_from(before, after, k + 1)))
}

/// Calling operator `i` alone keeps what the operators before it did, and what the next
/// one is handed (bytes and context) depends only on them.
pub proof fn lemma_chain_frame<E: ProgressEmitter>(
    before: Seq<BoxedOperator<E>>,
    s1: Seq<BoxedOperator<E>>,
    s2: Seq<BoxedOperator<E>>,
    input: Option<Seq<u8>>,
    c0: ContextMap,
    k: int,
)
    requires
        chain_ran(before, s1, input, c0, k),
        s2.len() == s1.len(),
        forall|j: int| 0 <= j < k ==> s2[j] == s1[j],
    ensures
        chain_ran(before, s2, input, c0, k),
        handed(s2, input, k) == handed(s1, input, k),
        ctx_handed(s2, c0, k) == ctx_handed(s1, c0, k),
{
    assert forall|j: int| 0 <= j < k implies handed(s2, input, j) == handed(s1, input, j) by {}
    assert forall|j: int| 0 <= j < k implies ctx_handed(s2, c0, j) == ctx_handed(s1, c0, j) by {}
    assert forall|j: int| 0 <= j < k implies #[trigger] processed_ok(
        before,
        s2,
        j,
        handed(s2, input, j),
        ctx_handed(s2, c0, j),
    ) by {
        assert(processed_ok(before, s1, j, handed(s1, input, j), ctx_handed(s1, c0, j)));
        assert(handed(s2, input, j) == handed(s1, input, j));
        assert(ctx_handed(s2, c0, j) == ctx_handed(s1, c0, j));
        assert(s2[j] == s1[j]);
    }
}

/// Calling operator `k` alone keeps what the first `k` operators did at the end of the
/// stream, and the context operator `k` is handed.
pub proof fn lemma_flush_frame<E: ProgressEmitter>(
    before: Seq<BoxedOperator<E>>,
    s1: Seq<BoxedOperator<E>>,
    s2: Seq<BoxedOperator<E>>,
    c0: ContextMap,
    k: int,
)
    requires
        flush_ran(before, s1, c0, k),
        s2.len() == s1.len(),
        forall|j: int| 0 <= j < k ==> s2[j] == s1[j],
    ensures
        flush_ran(before, s2, c0, k),
        ctx_handed(s2, c0, k) == ctx_handed(s1, c0, k),
{
    assert forall|j: int| 0 <= j < k implies #[trigger] processed_ok(
        before,
        s2,
        j,
        None,
        ctx_handed(s2, c0, j),
    ) by {
        assert(processed_ok(before, s1, j, None, ctx_handed(s1, c0, j)));
        assert(ctx_handed(s2, c0, j) == ctx_handed(s1, c0, j));
        assert(s2[j] == s1[j]);
    }
}

/// Calling operator `k` alone keeps the refusals of the first `k` operators, and the
/// context operator `k` is handed.
pub proof fn lemma_refusal_frame<E: ProgressEmitter>(
    before: Seq<BoxedOperator<E>>,
    s1: Seq<BoxedOperator<E>>,
    s2: Seq<BoxedOperator<E>>,
    err: PipelineError,
    c0: ContextMap,
    k: int,
)
    requires
        recovery_refused(before, s1, err, c0, k),
        s2.len() == s1.len(),
        forall|j: int| 0 <= j < k ==> s2[j] == s1[j],
    ensures
        recovery_refused(before, s2, err, c0, k),
        ctx_handed(s2, c0, k) == ctx_handed(s1, c0, k),
{
    assert forall|j: int| 0 <= j < k implies #[trigger] refused(
        before,
        s2,
        j,
        err,
        ctx_handed(s2, c0, j),
    ) by {
        assert(refused(before, s1, j, err, ctx_handed(s1, c0, j)));
        assert(ctx_handed(s2, c0, j) == ctx_handed(s1, c0, j));
        assert(s2[j] == s1[j]);
    }
}

impl<E: ProgressEmitter + 'static> StreamOperator<E> for StreamPipe<E> {
    /// A pipe passes chunks through unchanged when each of its operators does.
    open spec fn is_pass_through(&self) -> bool {
        all_pass_through(self.ops())
    }

    closed spec fn calls(&self) -> Seq<OperatorCall> {
        self.calls@
    }

    open spec fn op_name(&self) -> &'static str {
        self.spec_name()
    }

    fn name(&self) -> (r: &'static str) {
        self.name
    }

    /// A chunk runs through the operators in order, each handed what the one before it
    /// passed on and the context the one before it left, until one passes nothing on;
    /// the pipe passes on what the last operator reached passed on. The end of the
    /// stream reaches every operator in order. When an operator fails, the pipe returns
    /// what that operator's `handle_error` returns.
    fn process(
        &mut self,
        chunk: Option<&[u8]>,
        ctx: &mut PipelineContext,
        emitter: &mut E,
    ) -> (r: Result<Option<Vec<u8>>, PipelineError>)
        ensures
            final(self).spec_name() == old(self).spec_name(),
            final(self).ops().len() == old(self).ops().len(),
            chunk is Some ==> chain_outcome(
                old(self).ops(),
                final(self).ops(),
                chunk_view(chunk),
                old(ctx)@,
                final(ctx)@,
                result_view(r),
            ),
            chunk is None ==> flush_outcome(
                old(self).ops(),
                final(self).ops(),
                old(ctx)@,
                final(ctx)@,
                result_view(r),
            ),
            old(self).ops().len() == 0 && chunk is Some ==> (r matches Ok(Some(out)) && out@
                == chunk.unwrap()@),
            old(self).ops().len() == 0 && chunk is None ==> r == Ok::<
                Option<Vec<u8>>,
                PipelineError,
            >(None),
            old(self).ops().len() == 0 ==> final(ctx)@ == old(ctx)@,
    {
        let n = self.operators.len();
        let ghost before = self.operators@;
        let ghost c0 = ctx@;
        match chunk {
            Some(bytes) => {
                let ghost input = Some(bytes@);
                let mut current: Option<Vec<u8>> = Some(slice_to_vec(bytes));
                let mut i: usize = 0;
                while i < n
                    invariant
                        0 <= i <= n,
                        n == before.len(),
                        before == old(self).operators@,
                        c0 == old(ctx)@,
                        self.name == old(self).name,
                        self.calls == old(self).calls,
                        chunk == Some(bytes),
                        input == Some(bytes@),
                        keeps_pass_through(before, self.operators@),
                        chain_ran(before, self.operators@, input, c0, i as int),
                        untouched_from(before, self.operators@, i as int),
                        opt_view(current) == handed(self.operators@, input, i as int),
                        ctx@ == ctx_handed(self.operators@, c0, i as int),
                        old(self).is_pass_through() ==> (current matches Some(c) && c@ == bytes@),
                    ensures
                        i == n || current is None,
                    decreases n - i,
                {
                    match current {
                        Some(input_bytes) => {
                            proof {
                                if old(self).is_pass_through() {
                                    assert(all_pass_through(before));
                                    assert(before[i as int].op.is_pass_through());
                                }
                            }
                            let ghost mid = self.operators@;
                            let outcome = self.operators[i].op.process(
                                Some(input_bytes.as_slice()),
                                ctx,
                                emitter,
                            );
                            proof {
                                lemma_chain_frame(before, mid, self.operators@, input, c0, i as int);
                            }
                            match outcome {
                                Ok(output) => {
                                    current = output;
                                    proof {
                                        assert(processed_ok(
                                            before,
                                            self.operators@,
                                            i as int,
                                            handed(self.operators@, input, i as int),
                                            ctx_handed(self.operators@, c0, i as int),
                                        ));
                                    }
                                },
                                Err(err) => {
                                    let ghost failed = self.operators@;
                                    let handled = self.operators[i].op.handle_error(err, ctx, emitter);
                                    proof {
                                        lemma_chain_frame(
                                            before,
                                            failed,
                                            self.operators@,
                                            input,
                                            c0,
                                            i as int,
                                        );
                                        assert(failed_then_handled(
                                            before,
                                            self.operators@,
                                            i as int,
                                            handed(self.operators@, input, i as int),
                                            ctx_handed(self.operators@, c0, i as int),
                                            result_view(handled),
                                            ctx@,
                                        ));
                                        assert(chain_failed(
                                            before,
                                            self.operators@,
                                            input,
                                            c0,
                                            i as int,
                                            result_view(handled),
                                            ctx@,
                                        ));
                                        assert(chain_outcome(
                                            before,
                                            self.operators@,
                                            input,
                                            c0,
                                            ctx@,
                                            result_view(handled),
                                        ));
                                        if old(self).is_pass_through() {
                                            lemma_all_pass_through_kept(before, self.operators@);
                                        }
                                    }
                                    self.calls = Ghost(
                                        self.calls@.push(
                                            OperatorCall::Process {
                                                chunk: chunk_view(chunk),
                                                ctx_before: c0,
                                                ctx_after: ctx@,
                                                result: result_view(handled),
                                            },
                                        ),
                                    );
                                    return handled;
                                },
                            }
                        },
                        None => {
                            break ;
                        },
                    }
                    i = i + 1;
                }
                proof {
                    assert(chain_stopped(before, self.operators@, input, c0, i as int, ctx@));
                    assert(chain_outcome(
                        before,
                        self.operators@,
                        input,
                        c0,
                        ctx@,
                        Ok::<Option<Seq<u8>>, PipelineError>(opt_view(current)),
                    ));
                    if old(self).is_pass_through() {
                        lemma_all_pass_through_kept(before, self.operators@);
                    }
                }
                let r = Ok(current);
                self.calls = Ghost(
                    self.calls@.push(
                        OperatorCall::Process {
                            chunk: chunk_view(chunk),
                            ctx_before: c0,
                            ctx_after: ctx@,
                            result: result_view(r),
                        },
                    ),
                );
                r
            },
            None => {
                let mut i: usize = 0;
                while i < n
                    invariant
                        0 <= i <= n,
                        n == before.len(),
                        before == old(self).operators@,
                        c0 == old(ctx)@,
                        self.name == old(self).name,
                        self.calls == old(self).calls,
                        chunk is None,
                        keeps_pass_through(before, self.operators@),
                        flush_ran(before, self.operators@, c0, i as int),
                        untouched_from(before, self.operators@, i as int),
                        ctx@ == ctx_handed(self.operators@, c0, i as int),
                    decreases n - i,
                {
                    let ghost mid = self.operators@;
                    let outcome = self.operators[i].op.process(None, ctx, emitter);
                    proof {
                        lemma_flush_frame(before, mid, self.operators@, c0, i as int);
                    }
                    match outcome {
                        Ok(_) => {
                            proof {
                                assert(processed_ok(
                                    before,
                                    self.operators@,
                                    i as int,
                                    None,
                                    ctx_handed(self.operators@, c0, i as int),
                                ));
                            }
                        },
                        Err(err) => {
                            let ghost failed = self.operators@;
                            let handled = self.operators[i].op.handle_error(err, ctx, emitter);
                            proof {
                                lemma_flush_frame(before, failed, self.operators@, c0, i as int);
                                assert(failed_then_handled(
                                    before,
                                    self.operators@,
                                    i as int,
                                    None,
                                    ctx_handed(self.operators@, c0, i as int),
                                    result_view(handled),
                                    ctx@,
                                ));
                                assert(flush_failed(
                                    before,
                                    self.operators@,
                                    c0,
                                    i as int,
                                    result_view(handled),
                                    ctx@,
                                ));
                                if old(self).is_pass_through() {
                                    lemma_all_pass_through_kept(before, self.operators@);
                                }
                            }
                            self.calls = Ghost(
                                self.calls@.push(
                                    OperatorCall::Process {
                                        chunk: chunk_view(chunk),
                                        ctx_before: c0,
                                        ctx_after: ctx@,
                                        result: result_view(handled),
                                    },
                                ),
                            );
                            return handled;
                        },
                    }
                    i = i + 1;
                }
                proof {
                    assert(flush_ran(before, self.operators@, c0, n as int));
                    if old(self).is_pass_through() {
                        lemma_all_pass_through_kept(before, self.operators@);
                    }
                }
                let r = Ok(None);
                self.calls = Ghost(
                    self.calls@.push(
                        OperatorCall::Process {
                            chunk: chunk_view(chunk),
                            ctx_before: c0,
                            ctx_after: ctx@,
                            result: result_view(r),
                        },
                    ),
                );
                r
            },
        }
    }

    /// Offers the error to each operator in turn, each handed the context the one before
    /// it left; the first recovery wins. When none recovers, the error is returned as it
    /// is.
    fn handle_error(
        &mut self,
        err: PipelineError,
        ctx: &mut PipelineContext,
        emitter: &mut E,
    ) -> (r: Result<Option<Vec<u8>>, PipelineError>)
        ensures
            final(self).spec_name() == old(self).spec_name(),
            final(self).ops().len() == old(self).ops().len(),
            recovery_outcome(
                old(self).ops(),
                final(self).ops(),
                err,
                old(ctx)@,
                final(ctx)@,
                result_view(r),
            ),
            r is Err ==> r == Err::<Option<Vec<u8>>, PipelineError>(err),
    {
        let n = self.operators.len();
        let ghost before = self.operators@;
        let ghost c0 = ctx@;
        let mut i: usize = 0;
        while i < n
            invariant
                0 <= i <= n,
                n == before.len(),
                before == old(self).operators@,
                c0 == old(ctx)@,
                self.name == old(self).name,
                self.calls == old(self).calls,
                keeps_pass_through(before, self.operators@),
                recovery_refused(before, self.operators@, err, c0, i as int),
                untouched_from(before, self.operators@, i as int),
                ctx@ == ctx_handed(self.operators@, c0, i as int),
            decreases n - i,
        {
            let ghost mid = self.operators@;
            let offered = err.duplicate();
            let outcome = self.operators[i].op.handle_error(offered, ctx, emitter);
            proof {
                lemma_refusal_frame(before, mid, self.operators@, err, c0, i as int);
            }
            match outcome {
                Ok(res) => {
                    let r = Ok(res);
                    proof {
                        if old(self).is_pass_through() {
                            lemma_all_pass_through_kept(before, self.operators@);
                        }
                        assert(recovery_refused(before, self.operators@, err, c0, i as int));
                        assert(recovery_outcome(before, self.operators@, err, c0, ctx@, result_view(r)));
                    }
                    self.calls = Ghost(
                        self.calls@.push(
                            OperatorCall::HandleError {
                                error: err,
                                ctx_before: c0,
                                ctx_after: ctx@,
                                result: result_view(r),
                            },
                        ),
                    );
                    return r;
                },
                Err(_) => {
                    proof {
                        assert(refused(
                            before,
                            self.operators@,
                            i as int,
                            err,
                            ctx_handed(self.operators@, c0, i as int),
                        ));
                    }
                },
            }
            i = i + 1;
        }
        proof {
            if old(self).is_pass_through() {
                lemma_all_pass_through_kept(before, self.operators@);
            }
            assert(recovery_outcome(
                before,
                self.operators@,
                err,
                c0,
                ctx@,
                Err::<Option<Seq<u8>>, PipelineError>(err),
            ));
        }
        let ghost error = err;
        let r = Err(err);
        self.calls = Ghost(
            self.calls@.push(
                OperatorCall::HandleError {
                    error: error,
                    ctx_before: c0,
                    ctx_after: ctx@,
                    result: result_view(r),
                },
            ),
        );
        r
    }
}

/// A progress notification recorded by a `ContextualEmitter`: the step it came from is
/// counted in `completed_steps` out of `total_steps`.
#[derive(Debug, Clone)]
pub struct ProgressEvent {
    pub media_id: String,
    pub state: StepState,
    pub message: String,
    pub completed_steps: usize,
    pub total_steps: usize,
}

/// Steps done once step `step_index` (counted from 0) reports `state`: a completed step
/// counts itself, a started or running one does not (the count stops at `usize::MAX`).
pub open spec fn completed_steps(state: StepState, step_index: usize) -> int {
    match state {
        StepState::Completed => if step_index < usize::MAX {
            step_index + 1
        } else {
            step_index as int
        },
        StepState::Started | StepState::Processing => step_index as int,
    }
}

/// A step of a run never reports more steps done than the run has.
pub proof fn law_progress_within_run(state: StepState, step_index: usize, total_steps: usize)
    requires
        step_index < total_steps,
    ensures
        0 <= completed_steps(state, step_index) <= total_steps,
{
}

/// An emitter that records each notification of the pipeline run for medium
/// `media_id`, stamped with the step that is running.
pub struct ContextualEmitter {
    step_index: usize,
    total_steps: usize,
    media_id: String,
    events: Vec<ProgressEvent>,
}

impl ContextualEmitter {
    pub closed spec fn spec_step_index(&self) -> usize {
        self.step_index
    }

    pub closed spec fn spec_total_steps(&self) -> usize {
        self.total_steps
    }

    pub closed spec fn spec_media_id(&self) -> Seq<char> {
        self.media_id@
    }

    /// The notifications recorded and not yet taken.
    pub closed spec fn recorded(&self) -> Seq<ProgressEvent> {
        self.events@
    }

    /// An emitter for a run of `total_steps` steps, at the first step, with nothing
    /// recorded.
    pub fn new(media_id: String, total_steps: usize) -> (r: Self)
        ensures
            r.spec_step_index() == 0,
            r.spec_total_steps() == total_steps,
            r.spec_media_id() == media_id@,
            r.recorded() == Seq::<ProgressEvent>::empty(),
    {
        ContextualEmitter { step_index: 0, total_steps, media_id, events: Vec::new() }
    }

    /// Moves to step `step_index` of a run of `total_steps` steps.
    pub fn set_step(&mut self, step_index: usize, total_steps: usize)
        requires
            step_index < total_steps,
        ensures
            final(self).spec_step_index() == step_index,
            final(self).spec_total_steps() == total_steps,
            final(self).spec_media_id() == old(self).spec_media_id(),
            final(self).recorded() == old(self).recorded(),
    {
        self.step_index = step_index;
        self.total_steps = total_steps;
    }

    /// Hands over the recorded notifications, oldest first, and forgets them.
    pub fn take_events(&mut self) -> (r: Vec<ProgressEvent>)
        ensures
            r@ == old(self).recorded(),
            final(self).recorded() == Seq::<ProgressEvent>::empty(),
            final(self).spec_step_index() == old(self).spec_step_index(),
            final(self).spec_total_steps() == old(self).spec_total_steps(),
            final(self).spec_media_id() == old(self).spec_media_id(),
    {
        let mut taken: Vec<ProgressEvent> = Vec::new();
        std::mem::swap(&mut taken, &mut self.events);
        taken
    }
}

/// `e` is the notification of `state` with text `message` at the emitter's step.
pub open spec fn is_notification(
    e: ProgressEvent,
    emitter: ContextualEmitter,
    state: StepState,
    message: Seq<char>,
) -> bool {
    &&& e.media_id@ == emitter.spec_media_id()
    &&& e.state == state
    &&& e.message@ == message
    &&& e.completed_steps == completed_steps(state, emitter.spec_step_index())
    &&& e.total_steps == emitter.spec_total_steps()
}

impl ProgressEmitter for ContextualEmitter {
    /// Records the notification with the running step's count of completed steps.
    fn emit(&mut self, state: StepState, message: &str)
        ensures
            final(self).spec_step_index() == old(self).spec_step_index(),
            final(self).spec_total_steps() == old(self).spec_total_steps(),
            final(self).spec_media_id() == old(self).spec_media_id(),
            final(self).recorded().len() == old(self).recorded().len() + 1,
            final(self).recorded().drop_last() == old(self).recorded(),
            is_notification(final(self).recorded().last(), *old(self), state, message@),
    {
        let done = match state {
            StepState::Completed => if self.step_index < usize::MAX {
                self.step_index + 1
            } else {
                self.step_index
            },
            StepState::Started | StepState::Processing => self.step_index,
        };
        let event = ProgressEvent {
            media_id: self.media_id.clone(),
            state,
            message: String::from_str(message),
            completed_steps: done,
            total_steps: self.total_steps,
        };
        self.events.push(event);
        assert(self.events@.drop_last() =~= old(self).events@);
    }
}

/// Text of the notification that a step finished.
pub open spec fn step_done_message(name: Seq<char>) -> Seq<char> {
    "Etapa '"@ + name + "' finalizada com sucesso"@
}

/// `e` is the notification, for medium `media`, that the operator named `name`, step
/// `step` of `total`, finished.
pub open spec fn is_step_done(
    e: ProgressEvent,
    media: Seq<char>,
    name: &'static str,
    step: int,
    total: int,
) -> bool {
    &&& e.media_id@ == media
    &&& e.state == StepState::Completed
    &&& e.message@ == step_done_message(name@)
    &&& e.completed_steps == step
    &&& e.total_steps == total
}

/// `pos` lists, in increasing order and from position `from` on, positions of `events`
/// holding the notification that each of the first `k` operators of `ops` (step `j + 1`
/// of `total`) finished, for medium `media`.
pub open spec fn step_positions<E: ProgressEmitter>(
    events: Seq<ProgressEvent>,
    from: int,
    ops: Seq<BoxedOperator<E>>,
    k: int,
    total: int,
    media: Seq<char>,
    pos: Seq<int>,
) -> bool {
    &&& pos.len() == k
    &&& forall|j: int| 0 <= j < k ==> from <= #[trigger] pos[j] < events.len()
    &&& forall|j1: int, j2: int| 0 <= j1 < j2 < k ==> #[trigger] pos[j1] < #[trigger] pos[j2]
    &&& forall|j: int|
        0 <= j < k ==> is_step_done(events[#[trigger] pos[j]], media, ops[j].op.op_name(), j + 1, total)
}

/// From position `from` on, `events` holds, in order, the notifications that each of the
/// first `k` operators of `ops` (step `j + 1` of `total`) finished, for medium `media`.
pub open spec fn steps_done_in_order<E: ProgressEmitter>(
    events: Seq<ProgressEvent>,
    from: int,
    ops: Seq<BoxedOperator<E>>,
    k: int,
    total: int,
    media: Seq<char>,
) -> bool {
    exists|pos: Seq<int>| #[trigger] step_positions(events, from, ops, k, total, media, pos)
}

/// `b` begins with `a`.
pub open spec fn extends(a: Seq<ProgressEvent>, b: Seq<ProgressEvent>) -> bool {
    &&& a.len() <= b.len()
    &&& b.subrange(0, a.len() as int) == a
}

/// Extending is transitive.
pub proof fn lemma_extends_trans(a: Seq<ProgressEvent>, b: Seq<ProgressEvent>, c: Seq<ProgressEvent>)
    requires
        extends(a, b),
        extends(b, c),
    ensures
        extends(a, c),
{
    assert(c.subrange(0, a.len() as int) =~= b.subrange(0, a.len() as int));
}

/// Recorded step notifications stay where they are when more notifications follow.
pub proof fn lemma_steps_extend<E: ProgressEmitter>(
    a: Seq<ProgressEvent>,
    b: Seq<ProgressEvent>,
    from: int,
    ops: Seq<BoxedOperator<E>>,
    k: int,
    total: int,
    media: Seq<char>,
)
    requires
        0 <= from,
        extends(a, b),
        steps_done_in_order(a, from, ops, k, total, media),
    ensures
        steps_done_in_order(b, from, ops, k, total, media),
{
    let pos = choose|pos: Seq<int>| step_positions(a, from, ops, k, total, media, pos);
    assert forall|j: int| 0 <= j < k implies b[#[trigger] pos[j]] == a[pos[j]] by {
        let x = pos[j];
        assert(from <= x < a.len());
        assert(b.subrange(0, a.len() as int)[x] == b[x]);
    }
    assert(step_positions(b, from, ops, k, total, media, pos));
}

/// Appending the notification that operator `k` finished records one more step.
pub proof fn lemma_steps_push<E: ProgressEmitter>(
    a: Seq<ProgressEvent>,
    e: ProgressEvent,
    from: int,
    ops: Seq<BoxedOperator<E>>,
    k: int,
    total: int,
    media: Seq<char>,
)
    requires
        0 <= from <= a.len(),
        0 <= k < ops.len(),
        steps_done_in_order(a, from, ops, k, total, media),
        is_step_done(e, media, ops[k].op.op_name(), k + 1, total),
    ensures
        steps_done_in_order(a.push(e), from, ops, k + 1, total, media),
{
    let pos = choose|pos: Seq<int>| step_positions(a, from, ops, k, total, media, pos);
    let pos2 = pos.push(a.len() as int);
    let b = a.push(e);
    assert forall|j: int| 0 <= j < k implies b[#[trigger] pos2[j]] == a[pos[j]] by {
        assert(pos2[j] == pos[j]);
        assert(from <= pos[j] < a.len());
    }
    assert(step_positions(b, from, ops, k + 1, total, media, pos2));
}

/// Calling operator `k` alone keeps the names of the first `k` operators, so the
/// recorded step notifications still name them.
pub proof fn lemma_steps_frame<E: ProgressEmitter>(
    events: Seq<ProgressEvent>,
    from: int,
    s1: Seq<BoxedOperator<E>>,
    s2: Seq<BoxedOperator<E>>,
    k: int,
    total: int,
    media: Seq<char>,
)
    requires
        steps_done_in_order(events, from, s1, k, total, media),
        forall|j: int| 0 <= j < k ==> s2[j] == s1[j],
    ensures
        steps_done_in_order(events, from, s2, k, total, media),
{
    let pos = choose|pos: Seq<int>| step_positions(events, from, s1, k, total, media, pos);
    assert forall|j: int| 0 <= j < k implies s2[j].op.op_name() == s1[j].op.op_name() by {
        assert(s2[j] == s1[j]);
    }
    assert(step_positions(events, from, s2, k, total, media, pos));
}

/// What a run reports once an operator's error handler returned `handled`: a recovery
/// stands for success, counted as the `total` bytes fed.
pub open spec fn settled(handled: Result<Option<Seq<u8>>, PipelineError>, total: u64) -> Result<
    u64,
    PipelineError,
> {
    match handled {
        Ok(_) => Ok(total),
        Err(e) => Err(e),
    }
}

/// How feeding `input` to the operators `before` (leaving them as `after`), with the
/// run's context going from `c0` to `c_end`, may end with `r`: `None` when the chunk
/// stopped without failure, else the settled result of the failing operator's error
/// handler.
pub open spec fn feed_outcome<E: ProgressEmitter>(
    before: Seq<BoxedOperator<E>>,
    after: Seq<BoxedOperator<E>>,
    input: Option<Seq<u8>>,
    c0: ContextMap,
    c_end: ContextMap,
    r: Option<Result<u64, PipelineError>>,
    total: u64,
) -> bool {
    match r {
        None => exists|k: int| #[trigger] chain_stopped(before, after, input, c0, k, c_end),
        Some(res) => exists|k: int, h: Result<Option<Seq<u8>>, PipelineError>|
            #[trigger] chain_failed(before, after, input, c0, k, h, c_end) && res == settled(
                h,
                total,
            ),
    }
}

/// How ending the stream for the operators `before` (leaving them as `after`), with the
/// run's context going from `c0` to `c_end`, may end with `r`: every operator finished,
/// each handed the context the one before it left, and the run succeeds with `total`; or
/// the settled result of the failing operator's error handler.
pub open spec fn finish_outcome<E: ProgressEmitter>(
    before: Seq<BoxedOperator<E>>,
    after: Seq<BoxedOperator<E>>,
    c0: ContextMap,
    c_end: ContextMap,
    r: Result<u64, PipelineError>,
    total: u64,
) -> bool {
    ||| flush_ran(before, after, c0, before.len() as int) && c_end == ctx_handed(
        after,
        c0,
        before.len() as int,
    ) && r == Ok::<u64, PipelineError>(total)
    ||| exists|k: int, h: Result<Option<Seq<u8>>, PipelineError>|
        #[trigger] flush_failed(before, after, c0, k, h, c_end) && r == settled(h, total)
}

/// One run of a pipe over a byte stream read chunk by chunk. The reader feeds each chunk
/// it reads (`feed`), then, at the end of the stream, calls `finish`. Both may end the
/// run early with its result. The run counts the bytes it was fed, keeps the context
/// its operators share, and records their progress notifications.
pub struct PipeRun {
    pipe: StreamPipe<ContextualEmitter>,
    ctx: PipelineContext,
    emitter: ContextualEmitter,
    log: Vec<ProgressEvent>,
    media_id: String,
    total_bytes: u64,
    ended: bool,
}

/// The notification, for medium `media_id`, that the operator named `name`, step `step`
/// of `total`, finished.
fn step_done_event(media_id: &String, name: &'static str, step: usize, total: usize) -> (r:
    ProgressEvent)
    ensures
        is_step_done(r, media_id@, name, step as int, total as int),
{
    ProgressEvent {
        media_id: media_id.clone(),
        state: StepState::Completed,
        message: String::from_str("Etapa '").concat(name).concat("' finalizada com sucesso"),
        completed_steps: step,
        total_steps: total,
    }
}

impl PipeRun {
    pub closed spec fn spec_total_bytes(&self) -> u64 {
        self.total_bytes
    }

    /// Whether the run has produced its result.
    pub closed spec fn is_ended(&self) -> bool {
        self.ended
    }

    pub closed spec fn spec_context(&self) -> PipelineContext {
        self.ctx
    }

    /// The medium the run is for.
    pub closed spec fn spec_media_id(&self) -> Seq<char> {
        self.media_id@
    }

    /// The progress notifications recorded and not yet taken, oldest first.
    pub closed spec fn recorded(&self) -> Seq<ProgressEvent> {
        self.log@
    }

    pub closed spec fn spec_pipe(&self) -> StreamPipe<ContextualEmitter> {
        self.pipe
    }

    /// Moves what the operators notified into the run's record.
    fn collect(&mut self)
        ensures
            extends(old(self).log@, final(self).log@),
            final(self).pipe == old(self).pipe,
            final(self).ctx == old(self).ctx,
            final(self).media_id == old(self).media_id,
            final(self).total_bytes == old(self).total_bytes,
            final(self).ended == old(self).ended,
    {
        let mut taken = self.emitter.take_events();
        self.log.append(&mut taken);
        assert(self.log@.subrange(0, old(self).log@.len() as int) =~= old(self).log@);
    }

    /// Starts a run of `pipe` for medium `media_id` with an empty context, and records
    /// that processing started.
    pub fn start(pipe: StreamPipe<ContextualEmitter>, media_id: String) -> (r: Self)
        ensures
            r.spec_total_bytes() == 0,
            !r.is_ended(),
            r.spec_context()@ == Map::<ContextKind, ContextValue>::empty(),
            r.spec_pipe() == pipe,
            r.spec_media_id() == media_id@,
            r.recorded().len() == 1,
            r.recorded()[0].state == StepState::Started,
            r.recorded()[0].message@ == "Iniciando processamento..."@,
            r.recorded()[0].completed_steps == 0,
            r.recorded()[0].total_steps == pipe.ops().len(),
            r.recorded()[0].media_id@ == media_id@,
    {
        let total_steps = pipe.len();
        let mut emitter = ContextualEmitter::new(media_id.clone(), total_steps);
        emitter.emit(StepState::Started, "Iniciando processamento...");
        let log = emitter.take_events();
        PipeRun {
            pipe,
            ctx: PipelineContext::new(),
            emitter,
            log,
            media_id,
            total_bytes: 0,
            ended: false,
        }
    }

    /// Runs a chunk of the stream through the operators in order, until one passes
    /// nothing on. When an operator fails, the run ends with what its `handle_error`
    /// returns, a recovery standing for success: `Ok` of the bytes counted so far.
    /// `None` asks for the next chunk.
    pub fn feed(&mut self, chunk: &[u8]) -> (r: Option<Result<u64, PipelineError>>)
        requires
            !old(self).is_ended(),
            old(self).spec_total_bytes() + chunk@.len() <= u64::MAX,
        ensures
            final(self).spec_total_bytes() == old(self).spec_total_bytes() + chunk@.len(),
            final(self).is_ended() == (r is Some),
            r matches Some(Ok(n)) ==> n == final(self).spec_total_bytes(),
            final(self).spec_pipe().spec_name() == old(self).spec_pipe().spec_name(),
            final(self).spec_pipe().ops().len() == old(self).spec_pipe().ops().len(),
            feed_outcome(
                old(self).spec_pipe().ops(),
                final(self).spec_pipe().ops(),
                Some(chunk@),
                old(self).spec_context()@,
                final(self).spec_context()@,
                r,
                final(self).spec_total_bytes(),
            ),
            old(self).spec_pipe().is_pass_through() ==> r is None
                && final(self).spec_pipe().is_pass_through(),
            extends(old(self).recorded(), final(self).recorded()),
            final(self).spec_media_id() == old(self).spec_media_id(),
    {
        self.total_bytes = self.total_bytes + chunk.len() as u64;
        let n = self.pipe.operators.len();
        let ghost before = self.pipe.operators@;
        let ghost fed = Some(chunk@);
        let ghost c0 = self.ctx@;
        assert(self.log@.subrange(0, self.log@.len() as int) =~= self.log@);
        let mut current: Option<Vec<u8>> = Some(slice_to_vec(chunk));
        let mut i: usize = 0;
        while i < n
            invariant
                0 <= i <= n,
                n == before.len(),
                before == old(self).pipe.operators@,
                fed == Some(chunk@),
                self.pipe.name == old(self).pipe.name,
                self.total_bytes == old(self).total_bytes + chunk@.len(),
                !self.ended,
                keeps_pass_through(before, self.pipe.operators@),
                c0 == old(self).ctx@,
                chain_ran(before, self.pipe.operators@, fed, c0, i as int),
                untouched_from(before, self.pipe.operators@, i as int),
                opt_view(current) == handed(self.pipe.operators@, fed, i as int),
                self.ctx@ == ctx_handed(self.pipe.operators@, c0, i as int),
                old(self).pipe.is_pass_through() ==> current is Some,
                extends(old(self).log@, self.log@),
                self.media_id == old(self).media_id,
            ensures
                i == n || current is None,
            decreases n - i,
        {
            match current {
                Some(input) => {
                    proof {
                        if old(self).pipe.is_pass_through() {
                            assert(all_pass_through(before));
                            assert(before[i as int].op.is_pass_through());
                        }
                    }
                    self.emitter.set_step(i, n);
                    let ghost mid = self.pipe.operators@;
                    let outcome = self.pipe.operators[i].op.process(
                        Some(input.as_slice()),
                        &mut self.ctx,
                        &mut self.emitter,
                    );
                    proof {
                        lemma_chain_frame(before, mid, self.pipe.operators@, fed, c0, i as int);
                    }
                    let ghost log_before = self.log@;
                    self.collect();
                    proof {
                        lemma_extends_trans(old(self).log@, log_before, self.log@);
                    }
                    match outcome {
                        Ok(output) => {
                            current = output;
                            proof {
                                assert(processed_ok(
                                    before,
                                    self.pipe.operators@,
                                    i as int,
                                    handed(self.pipe.operators@, fed, i as int),
                                    ctx_handed(self.pipe.operators@, c0, i as int),
                                ));
                            }
                        },
                        Err(err) => {
                            let ghost failed = self.pipe.operators@;
                            let recovered = self.pipe.operators[i].op.handle_error(
                                err,
                                &mut self.ctx,
                                &mut self.emitter,
                            );
                            let ghost log_mid = self.log@;
                            self.collect();
                            proof {
                                lemma_extends_trans(old(self).log@, log_mid, self.log@);
                            }
                            self.ended = true;
                            let r = Some(
                                match recovered {
                                    Ok(_) => Ok(self.total_bytes),
                                    Err(e) => Err(e),
                                },
                            );
                            proof {
                                lemma_chain_frame(before, failed, self.pipe.operators@, fed, c0, i as int);
                                let h = result_view(recovered);
                                assert(failed_then_handled(
                                    before,
                                    self.pipe.operators@,
                                    i as int,
                                    handed(self.pipe.operators@, fed, i as int),
                                    ctx_handed(self.pipe.operators@, c0, i as int),
                                    h,
                                    self.ctx@,
                                ));
                                assert(chain_failed(before, self.pipe.operators@, fed, c0, i as int, h, self.ctx@));
                                assert(r->0 == settled(h, self.total_bytes));
                            }
                            return r;
                        },
                    }
                },
                None => {
                    break ;
                },
            }
            i = i + 1;
        }
        proof {
            assert(chain_stopped(before, self.pipe.operators@, fed, c0, i as int, self.ctx@));
            if old(self).pipe.is_pass_through() {
                lemma_all_pass_through_kept(before, self.pipe.operators@);
            }
        }
        None
    }

    /// Ends the stream: every operator is flushed in order, and each one that finishes
    /// is recorded as a completed step. When an operator fails, the run ends with what
    /// its `handle_error` returns, a recovery standing for success. The result of a
    /// successful run is the number of bytes fed.
    pub fn finish(&mut self) -> (r: Result<u64, PipelineError>)
        requires
            !old(self).is_ended(),
        ensures
            final(self).is_ended(),
            final(self).spec_total_bytes() == old(self).spec_total_bytes(),
            r matches Ok(n) ==> n == old(self).spec_total_bytes(),
            old(self).spec_pipe().ops().len() == 0 ==> r == Ok::<u64, PipelineError>(
                old(self).spec_total_bytes(),
            ),
            final(self).spec_pipe().spec_name() == old(self).spec_pipe().spec_name(),
            final(self).spec_pipe().ops().len() == old(self).spec_pipe().ops().len(),
            finish_outcome(
                old(self).spec_pipe().ops(),
                final(self).spec_pipe().ops(),
                old(self).spec_context()@,
                final(self).spec_context()@,
                r,
                old(self).spec_total_bytes(),
            ),
            flush_ran(
                old(self).spec_pipe().ops(),
                final(self).spec_pipe().ops(),
                old(self).spec_context()@,
                old(self).spec_pipe().ops().len() as int,
            ) ==> steps_done_in_order(
                final(self).recorded(),
                old(self).recorded().len() as int,
                final(self).spec_pipe().ops(),
                old(self).spec_pipe().ops().len() as int,
                old(self).spec_pipe().ops().len() as int,
                old(self).spec_media_id(),
            ),
            flush_ran(
                old(self).spec_pipe().ops(),
                final(self).spec_pipe().ops(),
                old(self).spec_context()@,
                old(self).spec_pipe().ops().len() as int,
            ) && old(self).spec_pipe().ops().len() > 0 ==> is_step_done(
                final(self).recorded().last(),
                old(self).spec_media_id(),
                final(self).spec_pipe().ops().last().op.op_name(),
                old(self).spec_pipe().ops().len() as int,
                old(self).spec_pipe().ops().len() as int,
            ),
            extends(old(self).recorded(), final(self).recorded()),
            final(self).spec_media_id() == old(self).spec_media_id(),
    {
        self.ended = true;
        let n = self.pipe.operators.len();
        let ghost before = self.pipe.operators@;
        let ghost c0 = self.ctx@;
        assert(self.log@.subrange(0, self.log@.len() as int) =~= self.log@);
        assert(step_positions(
            self.log@,
            self.log@.len() as int,
            self.pipe.operators@,
            0,
            n as int,
            self.media_id@,
            Seq::<int>::empty(),
        ));
        let mut i: usize = 0;
        while i < n
            invariant
                0 <= i <= n,
                n == before.len(),
                before == old(self).pipe.operators@,
                c0 == old(self).ctx@,
                self.pipe.name == old(self).pipe.name,
                self.total_bytes == old(self).total_bytes,
                self.ended,
                flush_ran(before, self.pipe.operators@, c0, i as int),
                untouched_from(before, self.pipe.operators@, i as int),
                self.ctx@ == ctx_handed(self.pipe.operators@, c0, i as int),
                extends(old(self).log@, self.log@),
                self.media_id == old(self).media_id,
                steps_done_in_order(
                    self.log@,
                    old(self).log@.len() as int,
                    self.pipe.operators@,
                    i as int,
                    n as int,
                    self.media_id@,
                ),
                i > 0 ==> is_step_done(
                    self.log@.last(),
                    self.media_id@,
                    self.pipe.operators@[i - 1].op.op_name(),
                    i as int,
                    n as int,
                ),
            decreases n - i,
        {
            self.emitter.set_step(i, n);
            let ghost mid = self.pipe.operators@;
            let outcome = self.pipe.operators[i].op.process(None, &mut self.ctx, &mut self.emitter);
            proof {
                lemma_flush_frame(before, mid, self.pipe.operators@, c0, i as int);
                lemma_steps_frame(self.log@, old(self).log@.len() as int, mid, self.pipe.operators@, i as int, n as int, self.media_id@);
            }
            let ghost log_before = self.log@;
            self.collect();
            proof {
                lemma_extends_trans(old(self).log@, log_before, self.log@);
                lemma_steps_extend(log_before, self.log@, old(self).log@.len() as int, self.pipe.operators@, i as int, n as int, self.media_id@);
            }
            match outcome {
                Ok(_) => {
                    proof {
                        assert(processed_ok(
                            before,
                            self.pipe.operators@,
                            i as int,
                            None,
                            ctx_handed(self.pipe.operators@, c0, i as int),
                        ));
                    }
                },
                Err(err) => {
                    let ghost failed = self.pipe.operators@;
                    let recovered = self.pipe.operators[i].op.handle_error(
                        err,
                        &mut self.ctx,
                        &mut self.emitter,
                    );
                    let ghost log_mid = self.log@;
                    self.collect();
                    proof {
                        lemma_extends_trans(old(self).log@, log_mid, self.log@);
                    }
                    let r = match recovered {
                        Ok(_) => Ok(self.total_bytes),
                        Err(e) => Err(e),
                    };
                    proof {
                        lemma_flush_frame(before, failed, self.pipe.operators@, c0, i as int);
                        let h = result_view(recovered);
                        assert(failed_then_handled(
                            before,
                            self.pipe.operators@,
                            i as int,
                            None,
                            ctx_handed(self.pipe.operators@, c0, i as int),
                            h,
                            self.ctx@,
                        ));
                        assert(flush_failed(before, self.pipe.operators@, c0, i as int, h, self.ctx@));
                        assert(r == settled(h, self.total_bytes));
                        assert(!processed_ok(
                            before,
                            self.pipe.operators@,
                            i as int,
                            None,
                            ctx_handed(self.pipe.operators@, c0, i as int),
                        ));
                    }
                    return r;
                },
            }
            let name = self.pipe.operators[i].op.name();
            let done = step_done_event(&self.media_id, name, i + 1, n);
            let ghost log_before_done = self.log@;
            self.log.push(done);
            proof {
                assert(self.log@.subrange(0, log_before_done.len() as int) =~= log_before_done);
                lemma_extends_trans(old(self).log@, log_before_done, self.log@);
                lemma_steps_push(log_before_done, done, old(self).log@.len() as int, self.pipe.operators@, i as int, n as int, self.media_id@);
            }
            i = i + 1;
        }
        Ok(self.total_bytes)
    }

    /// Number of bytes fed so far.
    pub fn total_bytes(&self) -> (r: u64)
        ensures
            r == self.spec_total_bytes(),
    {
        self.total_bytes
    }

    /// The context the operators share.
    pub fn context(&self) -> (r: &PipelineContext)
        ensures
            *r == self.spec_context(),
    {
        &self.ctx
    }

    /// Hands over the progress notifications recorded since the last call, oldest first.
    pub fn take_events(&mut self) -> (r: Vec<ProgressEvent>)
        ensures
            r@ == old(self).recorded(),
            final(self).recorded() == Seq::<ProgressEvent>::empty(),
            final(self).spec_total_bytes() == old(self).spec_total_bytes(),
            final(self).is_ended() == old(self).is_ended(),
            final(self).spec_pipe() == old(self).spec_pipe(),
            final(self).spec_context() == old(self).spec_context(),
            final(self).spec_media_id() == old(self).spec_media_id(),
    {
        let mut taken: Vec<ProgressEvent> = Vec::new();
        std::mem::swap(&mut taken, &mut self.log);
        taken
    }
}

} // verus!
