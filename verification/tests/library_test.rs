use sx_vault_media::shared::utils::streaming::traits::BoxedOperator;
use std::sync::{Arc, Mutex};

use sx_vault_media::infra::adapters::inbound::grpc::completion_event;
use sx_vault_media::infra::adapters::inbound::grpc::stream::progress_reply_for;
use sx_vault_media::shared::utils::composition::{FnLoader, FnTransformer, FnValidator, Loader, Transformer, Validator};
use sx_vault_media::shared::utils::event_bus::{progress_event, MediaEvent};
use sx_vault_media::shared::utils::operators::builder::{ChunkHook, ErrorHook, FinishHook, NextHook};
use sx_vault_media::shared::utils::operators::FnOperator;
use sx_vault_media::shared::utils::streaming::context::{ContextKind, ContextValue, PipelineContext};
use sx_vault_media::shared::utils::streaming::errors::PipelineError;
use sx_vault_media::shared::utils::streaming::pipe::{ContextualEmitter, PipeRun, ProgressEvent, StreamPipe};
use sx_vault_media::shared::utils::streaming::traits::{NoOpEmitter, ProgressEmitter, StepState, StreamOperator};
use sx_vault_media::shared::utils::text::{decimal_string, trim};
use sx_vault_media::vault_core::domain::errors::DomainError;
use sx_vault_media::vault_core::domain::types::VideoMetadata;
use sx_vault_media::vault_core::ports::inbound::media_process::MediaProcessResult;

fn failed(name: &'static str, reason: &str) -> PipelineError {
    PipelineError::OperatorFailed { operator_name: name, reason: reason.to_string() }
}

struct Fail;

impl<T, E: ProgressEmitter> ChunkHook<T, E> for Fail {
    fn call(&mut self, _c: &[u8], _s: &mut T, _x: &mut PipelineContext, _e: &mut E) -> Result<(), PipelineError> {
        Err(failed("fail", "always"))
    }
}

struct Recover;

impl<T, E: ProgressEmitter> ErrorHook<T, E> for Recover {
    fn call(&mut self, _err: &PipelineError, _s: &mut T, _x: &mut PipelineContext, _e: &mut E) -> Result<Option<Vec<u8>>, PipelineError> {
        Ok(Some(b"recovered".to_vec()))
    }
}

struct CountChunks;

impl<E: ProgressEmitter> ChunkHook<u64, E> for CountChunks {
    fn call(&mut self, chunk: &[u8], state: &mut u64, ctx: &mut PipelineContext, _e: &mut E) -> Result<(), PipelineError> {
        *state += chunk.len() as u64;
        ctx.insert(ContextValue::Count(*state));
        Ok(())
    }
}

struct StoreText;

impl<E: ProgressEmitter> FinishHook<u64, E> for StoreText {
    fn call(&mut self, state: &mut u64, ctx: &mut PipelineContext, _e: &mut E) -> Result<(), PipelineError> {
        ctx.insert(ContextValue::Text(format!("{} bytes", state)));
        Ok(())
    }
}

struct Drop;

impl<E: ProgressEmitter> NextHook<(), E> for Drop {
    fn call(&mut self, _c: &[u8], _s: &mut (), _x: &mut PipelineContext, _e: &mut E) -> Result<Option<Vec<u8>>, PipelineError> {
        Ok(None)
    }
}

#[test]
fn context_read_after_write() {
    let mut ctx = PipelineContext::default();
    assert!(ctx.get(ContextKind::Flag).is_none());
    ctx.insert(ContextValue::Flag(true));
    ctx.insert(ContextValue::Count(3));
    assert!(matches!(ctx.get(ContextKind::Flag), Some(ContextValue::Flag(true))));
    ctx.insert(ContextValue::Flag(false));
    assert!(matches!(ctx.get(ContextKind::Flag), Some(ContextValue::Flag(false))));
    assert!(matches!(ctx.get(ContextKind::Count), Some(ContextValue::Count(3))));
    assert!(ctx.get(ContextKind::Text).is_none());
    if let Some(ContextValue::Count(n)) = ctx.get_mut(ContextKind::Count) {
        *n = 9;
    }
    assert!(matches!(ctx.get(ContextKind::Count), Some(ContextValue::Count(9))));
    assert!(ctx.get_mut(ContextKind::Bytes).is_none());
}

#[test]
fn error_messages() {
    assert_eq!(PipelineError::Io("x".to_string()).message(), "Erro de I/O: x");
    assert_eq!(failed("op", "bad").message(), "Operador 'op' falhou: bad");
    assert_eq!(
        PipelineError::RetryExhausted { operator_name: "upload", attempts: 3 }.message(),
        "Tentativas esgotadas para 'upload' após 3 tentativas"
    );
    assert_eq!(DomainError::UnsupportedFormat("a".to_string()).message(), "Formato não suportado: a");
    assert_eq!(DomainError::InvalidStream("b".to_string()).message(), "Stream inválido: b");
    assert_eq!(DomainError::ValidationFailed("c".to_string()).message(), "Falha de validação: c");
    assert_eq!(DomainError::PipelineProcessingFailed("d".to_string()).message(), "Erro no pipeline: d");
    assert_eq!(DomainError::StorageFailed("e".to_string()).message(), "Falha no vault/armazenamento: e");
}

#[test]
fn decimal_and_trim() {
    assert_eq!(decimal_string(0), "0");
    assert_eq!(decimal_string(7), "7");
    assert_eq!(decimal_string(1234567890), "1234567890");
    assert_eq!(decimal_string(u64::MAX), u64::MAX.to_string());
    assert_eq!(trim("  a b \n"), "a b");
    assert_eq!(trim("\u{3000}x\u{00A0}"), "x");
    assert_eq!(trim("   "), "");
    assert_eq!(trim(""), "");
    for s in ["  x  ", "\t\n", "a", " a b "] {
        let once = trim(s);
        assert_eq!(trim(&once), once);
    }
}

#[test]
fn step_labels() {
    assert_eq!(StepState::Started.label(), "STARTED");
    assert_eq!(StepState::Processing.label(), "PROCESSING");
    assert_eq!(StepState::Completed.label(), "COMPLETED");
}

#[test]
fn video_metadata_updates() {
    let meta = VideoMetadata::new_at("m1".to_string(), 2.5f64.to_bits(), 1000);
    assert_eq!(meta.base.id, "m1");
    assert_eq!(meta.base.content_type.as_deref(), Some("application/octet-stream"));
    assert_eq!(meta.base.created_at, 1000);
    assert_eq!(f64::from_bits(meta.duration_seconds_bits), 2.5);
    let mut meta = meta.with_content_type("video/mp4".to_string());
    meta.add_bytes(10);
    meta.add_bytes(5);
    meta.set_checksum("abc".to_string());
    meta.add_partition_index(4);
    meta.add_partition_index(2);
    assert_eq!(meta.base.content_type.as_deref(), Some("video/mp4"));
    assert_eq!(meta.base.total_size_bytes, 15);
    assert_eq!(meta.base.checksum.as_deref(), Some("abc"));
    assert_eq!(meta.timeline_indices, vec![4, 2]);
    let now = VideoMetadata::new("m2".to_string(), 0);
    assert!(now.base.created_at > 1_600_000_000);
    let blank = VideoMetadata::default();
    assert_eq!(blank.base.content_type, None);
    assert_eq!(blank.base.total_size_bytes, 0);
}

#[test]
fn failing_operator_without_recovery_returns_error() {
    let mut op = FnOperator::new("f").do_it(Fail);
    let mut ctx = PipelineContext::new();
    let mut em = NoOpEmitter;
    let err = op.process(Some(b"x"), &mut ctx, &mut em).unwrap_err();
    let back = op.handle_error(err, &mut ctx, &mut em).unwrap_err();
    assert_eq!(back.message(), "Operador 'fail' falhou: always");
}

#[test]
fn pipe_recovers_through_error_hook() {
    let op = FnOperator::new("f").do_it(Fail).on_error(Recover);
    let mut pipe: StreamPipe<NoOpEmitter> = StreamPipe::with_operators(vec![BoxedOperator::new(op)]);
    let mut ctx = PipelineContext::new();
    let mut em = NoOpEmitter;
    let res = pipe.process(Some(b"x"), &mut ctx, &mut em).unwrap();
    assert_eq!(res, Some(b"recovered".to_vec()));
    let res = pipe.handle_error(failed("other", "e"), &mut ctx, &mut em).unwrap();
    assert_eq!(res, Some(b"recovered".to_vec()));
}

#[test]
fn pipe_handle_error_without_recovery_gives_error_back() {
    let mut pipe: StreamPipe<NoOpEmitter> =
        StreamPipe::new("p", vec![BoxedOperator::new(FnOperator::new("a")), BoxedOperator::new(FnOperator::new("b"))]);
    let mut ctx = PipelineContext::new();
    let mut em = NoOpEmitter;
    let err = pipe.handle_error(failed("x", "y"), &mut ctx, &mut em).unwrap_err();
    assert_eq!(err.message(), "Operador 'x' falhou: y");
    assert_eq!(pipe.operators().len(), 2);
    assert_eq!(pipe.operators_mut().len(), 2);
}

#[test]
fn empty_pipe_is_identity() {
    let mut pipe: StreamPipe<NoOpEmitter> = StreamPipe::from(Vec::new());
    assert_eq!(pipe.name(), "stream_pipe");
    let mut ctx = PipelineContext::new();
    let mut em = NoOpEmitter;
    assert_eq!(pipe.process(Some(b"abc"), &mut ctx, &mut em).unwrap(), Some(b"abc".to_vec()));
    assert_eq!(pipe.process(None, &mut ctx, &mut em).unwrap(), None);
}

#[test]
fn pipe_stops_when_operator_passes_nothing() {
    let mut pipe: StreamPipe<NoOpEmitter> = StreamPipe::with_operators(vec![
        BoxedOperator::new(FnOperator::new("drop").on_next(Drop)),
        BoxedOperator::new(FnOperator::new("never").do_it(Fail)),
    ]);
    pipe.add_operator(BoxedOperator::new(FnOperator::new("last").do_it(Fail)));
    assert_eq!(pipe.operators().len(), 3);
    let mut ctx = PipelineContext::new();
    let mut em = NoOpEmitter;
    assert_eq!(pipe.process(Some(b"abc"), &mut ctx, &mut em).unwrap(), None);
}

#[test]
fn extract_and_load_hooks_share_state_and_context() {
    let op = FnOperator::with_state("counter", 0u64).extract_it(CountChunks, StoreText);
    let loader = FnOperator::with_state("loader", 0u64).load_it(CountChunks);
    let mut pipe: StreamPipe<NoOpEmitter> = StreamPipe::with_operators(vec![BoxedOperator::new(op), BoxedOperator::new(loader)]);
    let mut ctx = PipelineContext::new();
    let mut em = NoOpEmitter;
    assert_eq!(pipe.process(Some(b"abcd"), &mut ctx, &mut em).unwrap(), Some(b"abcd".to_vec()));
    assert_eq!(pipe.process(Some(b"ef"), &mut ctx, &mut em).unwrap(), Some(b"ef".to_vec()));
    assert_eq!(pipe.process(None, &mut ctx, &mut em).unwrap(), None);
    assert!(matches!(ctx.get(ContextKind::Count), Some(ContextValue::Count(6))));
    match ctx.get(ContextKind::Text) {
        Some(ContextValue::Text(t)) => assert_eq!(t, "6 bytes"),
        _ => panic!("missing text"),
    }
}

#[test]
fn run_ends_early_on_recovered_error_with_bytes_so_far() {
    let op = FnOperator::new("f").do_it(Fail).on_error(Recover);
    let pipe = StreamPipe::with_operators(vec![BoxedOperator::new(op)]);
    let mut run = PipeRun::start(pipe, "m".to_string());
    assert_eq!(run.feed(b"12345").unwrap().unwrap(), 5);
    assert_eq!(run.total_bytes(), 5);
}

#[test]
fn run_reports_unrecovered_error() {
    let op = FnOperator::new("f").do_it(Fail);
    let pipe = StreamPipe::with_operators(vec![BoxedOperator::new(op)]);
    let mut run = PipeRun::start(pipe, "m".to_string());
    let err = run.feed(b"12345").unwrap().unwrap_err();
    assert_eq!(err.message(), "Operador 'fail' falhou: always");
}

#[test]
fn contextual_emitter_counts_steps() {
    let mut em = ContextualEmitter::new("m".to_string(), 4);
    em.set_step(2, 4);
    em.emit(StepState::Processing, "a");
    em.emit(StepState::Completed, "b");
    let events = em.take_events();
    assert_eq!(events.len(), 2);
    assert_eq!(events[0].completed_steps, 2);
    assert_eq!(events[1].completed_steps, 3);
    assert_eq!(events[1].total_steps, 4);
    assert_eq!(events[1].message, "b");
    assert!(em.take_events().is_empty());
}

#[test]
fn progress_replies_follow_one_medium() {
    let ev = progress_event(ProgressEvent {
        media_id: "m".to_string(),
        state: StepState::Completed,
        message: "done".to_string(),
        completed_steps: 1,
        total_steps: 2,
    });
    let r = progress_reply_for(&ev, "m").unwrap();
    assert_eq!((r.id.as_str(), r.state.as_str(), r.message.as_str()), ("m", "COMPLETED", "done"));
    assert_eq!((r.done, r.total), (1, 2));
    assert!(r.final_result.is_none());
    assert!(progress_reply_for(&ev, "other").is_none());

    let done = MediaEvent::Completed { media_id: "m".to_string(), vault_path: "/vault/storage/m".to_string(), total_bytes: 1234 };
    let r = progress_reply_for(&done, "m").unwrap();
    assert_eq!(r.state, "COMPLETED");
    assert_eq!(r.message, "Processado com sucesso (1234 bytes)");
    let fr = r.final_result.unwrap();
    assert_eq!((fr.id.as_str(), fr.vault_path.as_str(), fr.success), ("m", "/vault/storage/m", true));
    assert_eq!((r.done, r.total), (1, 1));

    let failed_ev = MediaEvent::Failed { media_id: "m".to_string(), error: "boom".to_string() };
    let r = progress_reply_for(&failed_ev, "m").unwrap();
    assert_eq!((r.state.as_str(), r.message.as_str(), r.done, r.total), ("FAILED", "boom", 0, 1));
    assert!(progress_reply_for(&failed_ev, "n").is_none());
}

#[test]
fn completion_events() {
    let ok = completion_event(
        "m".to_string(),
        Ok(MediaProcessResult { media_id: "m".to_string(), vault_path: "/vault/storage/m".to_string(), total_bytes_processed: 9, is_success: true }),
    );
    match ok {
        MediaEvent::Completed { media_id, vault_path, total_bytes } => {
            assert_eq!((media_id.as_str(), vault_path.as_str(), total_bytes), ("m", "/vault/storage/m", 9));
        }
        _ => panic!("expected completion"),
    }
    match completion_event("m".to_string(), Err(DomainError::InvalidStream("x".to_string()))) {
        MediaEvent::Failed { media_id, error } => {
            assert_eq!((media_id.as_str(), error.as_str()), ("m", "Stream inválido: x"));
        }
        _ => panic!("expected failure"),
    }
}

#[test]
fn function_based_composition() {
    let t = FnTransformer::new("double", |x: u32| Ok(x * 2));
    assert_eq!(Transformer::name(&t), "double");
    assert_eq!(t.transform(21).unwrap(), 42);

    let l = FnLoader::new("store", |s: String| if s.is_empty() { Err(PipelineError::Io("empty".to_string())) } else { Ok(s.len()) });
    assert_eq!(Loader::name(&l), "store");
    assert_eq!(l.load("abc".to_string()).unwrap(), 3);
    assert!(l.load(String::new()).is_err());
}

#[test]
fn fn_validator_checks_shared_value_at_end() {
    let target = Arc::new(Mutex::new(5u32));
    let mut v = FnValidator::new("positive", Arc::clone(&target), |x: &u32| {
        if *x > 0 { Ok(()) } else { Err(PipelineError::OperatorFailed { operator_name: "positive", reason: "zero".to_string() }) }
    });
    assert_eq!(Validator::<u32, NoOpEmitter>::rule_name(&v), "positive");
    assert!(Validator::<u32, NoOpEmitter>::validate(&v, &0).is_err());
    let mut ctx = PipelineContext::new();
    let mut em = NoOpEmitter;
    assert_eq!(StreamOperator::<NoOpEmitter>::name(&v), "positive");
    assert_eq!(v.process(Some(b"zz"), &mut ctx, &mut em).unwrap(), Some(b"zz".to_vec()));
    assert_eq!(v.process(None, &mut ctx, &mut em).unwrap(), None);
    *target.lock().unwrap() = 0;
    let err = v.process(None, &mut ctx, &mut em).unwrap_err();
    assert_eq!(err.message(), "Operador 'positive' falhou: zero");
}


#[test]
fn fn_validator_reports_a_held_target_instead_of_blocking() {
    let target = Arc::new(Mutex::new(5u32));
    let mut v = FnValidator::new("positive", Arc::clone(&target), |x: &u32| {
        if *x > 0 { Ok(()) } else { Err(PipelineError::OperatorFailed { operator_name: "positive", reason: "zero".to_string() }) }
    });
    let mut ctx = PipelineContext::new();
    let mut em = NoOpEmitter;
    let guard = target.lock().unwrap();
    let err = v.process(None, &mut ctx, &mut em).unwrap_err();
    assert_eq!(err.message(), "Operador 'positive' falhou: não foi possível acessar o valor para validação");
    drop(guard);
    assert_eq!(v.process(None, &mut ctx, &mut em).unwrap(), None);
}

#[test]
fn fn_validator_verdict_on_lock_outcome() {
    let target = Arc::new(Mutex::new(1u32));
    let v = FnValidator::new("positive", target, |x: &u32| {
        if *x > 0 { Ok(()) } else { Err(PipelineError::OperatorFailed { operator_name: "positive", reason: "zero".to_string() }) }
    });
    assert_eq!(
        v.verdict_on(None).unwrap_err().message(),
        "Operador 'positive' falhou: não foi possível acessar o valor para validação"
    );
    assert_eq!(v.verdict_on(Some(&3)).unwrap(), None);
    assert_eq!(v.verdict_on(Some(&0)).unwrap_err().message(), "Operador 'positive' falhou: zero");
}

struct ReadCount;

impl<E: ProgressEmitter> FinishHook<(), E> for ReadCount {
    fn call(&mut self, _s: &mut (), ctx: &mut PipelineContext, _e: &mut E) -> Result<(), PipelineError> {
        let seen = match ctx.get(ContextKind::Count) {
            Some(ContextValue::Count(n)) => *n,
            _ => 0,
        };
        ctx.insert(ContextValue::Text(format!("saw {}", seen)));
        Ok(())
    }
}

#[test]
fn pipe_hands_one_context_from_operator_to_operator() {
    let counter = FnOperator::with_state("count", 0u64).do_it(CountChunks);
    let reader = FnOperator::new("read").validate_it(ReadCount);
    let pipe: StreamPipe<ContextualEmitter> = StreamPipe::new("p", vec![BoxedOperator::new(counter), BoxedOperator::new(reader)]);
    let mut run = PipeRun::start(pipe, "ctx".to_string());
    assert!(run.feed(b"abc").is_none());
    assert!(run.feed(b"de").is_none());
    assert_eq!(run.finish().unwrap(), 5);
    match run.context().get(ContextKind::Text) {
        Some(ContextValue::Text(t)) => assert_eq!(t, "saw 5"),
        other => panic!("unexpected: {:?}", other),
    }
    let done: Vec<String> = run
        .take_events()
        .into_iter()
        .filter(|e| e.state == StepState::Completed)
        .map(|e| format!("{} {}/{}", e.message, e.completed_steps, e.total_steps))
        .collect();
    assert_eq!(
        done,
        vec![
            "Etapa 'count' finalizada com sucesso 1/2".to_string(),
            "Etapa 'read' finalizada com sucesso 2/2".to_string(),
        ]
    );
}
