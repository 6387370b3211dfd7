use sx_vault_media::shared::utils::streaming::traits::BoxedOperator;
use sx_vault_media::shared::utils::operators::builder::{ChunkHook, FinishHook, TransformHook};
use sx_vault_media::shared::utils::operators::FnOperator;
use sx_vault_media::shared::utils::streaming::context::{ContextKind, ContextValue, PipelineContext};
use sx_vault_media::shared::utils::streaming::errors::PipelineError;
use sx_vault_media::shared::utils::streaming::pipe::{ContextualEmitter, PipeRun, StreamPipe};
use sx_vault_media::shared::utils::streaming::traits::{NoOpEmitter, ProgressEmitter, StreamOperator};

struct AcceptChunk;

impl<T, E: ProgressEmitter> ChunkHook<T, E> for AcceptChunk {
    fn call(
        &mut self,
        _chunk: &[u8],
        _state: &mut T,
        _ctx: &mut PipelineContext,
        _emitter: &mut E,
    ) -> Result<(), PipelineError> {
        Ok(())
    }
}

struct RequireFlag;

impl<E: ProgressEmitter> FinishHook<(), E> for RequireFlag {
    fn call(
        &mut self,
        _state: &mut (),
        ctx: &mut PipelineContext,
        _emitter: &mut E,
    ) -> Result<(), PipelineError> {
        match ctx.get(ContextKind::Flag) {
            None => Err(PipelineError::OperatorFailed {
                operator_name: "validator",
                reason: "Flag ausente".to_string(),
            }),
            Some(ContextValue::Flag(true)) => Ok(()),
            Some(_) => Err(PipelineError::OperatorFailed {
                operator_name: "validator",
                reason: "flag false".to_string(),
            }),
        }
    }
}

struct ToUppercase;

impl<E: ProgressEmitter> TransformHook<(), E> for ToUppercase {
    fn call(
        &mut self,
        chunk: &[u8],
        _state: &mut (),
        _ctx: &mut PipelineContext,
        _emitter: &mut E,
    ) -> Result<Vec<u8>, PipelineError> {
        Ok(chunk.iter().map(|b| b.to_ascii_uppercase()).collect())
    }
}

fn run_stream(pipe: StreamPipe<ContextualEmitter>, data: &[u8], media_id: &str) -> Result<u64, PipelineError> {
    let mut run = PipeRun::start(pipe, media_id.to_string());
    for chunk in data.chunks(16384) {
        if let Some(result) = run.feed(chunk) {
            return result;
        }
    }
    run.finish()
}

#[test]
fn test_stream_pipe_as_stream_operator() {
    let op1 = FnOperator::new("op1").do_it(AcceptChunk);
    let op2 = FnOperator::new("op2").do_it(AcceptChunk);

    let mut pipe: StreamPipe<NoOpEmitter> =
        StreamPipe::new("test_pipe", vec![BoxedOperator::new(op1), BoxedOperator::new(op2)]);

    assert_eq!(pipe.name(), "test_pipe");

    let mut ctx = PipelineContext::new();
    let mut emitter = NoOpEmitter;
    let res = pipe.process(Some(b"hello world"), &mut ctx, &mut emitter);
    assert!(res.is_ok());
    assert_eq!(res.unwrap(), Some(b"hello world".to_vec()));

    let flush_res = pipe.process(None, &mut ctx, &mut emitter);
    assert!(flush_res.is_ok());
    assert_eq!(flush_res.unwrap(), None);
}

#[test]
fn test_reactive_stream_pipe_execution() {
    let dummy_data = b"0000ftypisom0000";

    let op = FnOperator::new("passthrough").do_it(AcceptChunk);
    let pipe = StreamPipe::with_operators(vec![BoxedOperator::new(op)]);

    let result = run_stream(pipe, &dummy_data[..], "test_media_123");
    assert!(result.is_ok());
    assert_eq!(result.unwrap(), dummy_data.len() as u64);
}

#[test]
fn test_fn_operator_validate_it_passes_on_valid_ctx() {
    let op = FnOperator::new("validator").validate_it(RequireFlag);

    let mut pipe: StreamPipe<NoOpEmitter> = StreamPipe::with_operators(vec![BoxedOperator::new(op)]);
    let mut ctx = PipelineContext::new();
    ctx.insert(ContextValue::Flag(true));
    let mut emitter = NoOpEmitter;

    let chunk_res = pipe.process(Some(b"chunk"), &mut ctx, &mut emitter);
    assert_eq!(chunk_res.unwrap(), Some(b"chunk".to_vec()));

    let flush_res = pipe.process(None, &mut ctx, &mut emitter);
    assert!(flush_res.is_ok());
}

#[test]
fn test_fn_operator_transform_it_modifies_bytes() {
    let op = FnOperator::new("to_uppercase").transform_it(ToUppercase);

    let mut pipe: StreamPipe<NoOpEmitter> = StreamPipe::with_operators(vec![BoxedOperator::new(op)]);
    let mut ctx = PipelineContext::new();
    let mut emitter = NoOpEmitter;

    let res = pipe.process(Some(b"hello"), &mut ctx, &mut emitter);
    assert_eq!(res.unwrap(), Some(b"HELLO".to_vec()));
}
