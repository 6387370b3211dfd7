use sx_vault_media::shared::utils::streaming::traits::BoxedOperator;
use sx_vault_media::shared::utils::operators::builder::FlushHook;
use sx_vault_media::shared::utils::operators::FnOperator;
use sx_vault_media::shared::utils::streaming::context::{ContextValue, PipelineContext};
use sx_vault_media::shared::utils::streaming::errors::PipelineError;
use sx_vault_media::shared::utils::streaming::pipe::{ContextualEmitter, PipeRun, StreamPipe};
use sx_vault_media::shared::utils::streaming::traits::ProgressEmitter;
use sx_vault_media::vault_core::domain::types::VideoMetadata;
use sx_vault_media::vault_core::services::extract_media_metadata::extract_media_metadata;
use sx_vault_media::vault_core::services::validator_video::{validate, validate_video_metadata};

fn run_stream(pipe: StreamPipe<ContextualEmitter>, data: &[u8], media_id: &str) -> Result<u64, PipelineError> {
    let mut run = PipeRun::start(pipe, media_id.to_string());
    for chunk in data.chunks(16384) {
        if let Some(result) = run.feed(chunk) {
            return result;
        }
    }
    run.finish()
}

struct SetupPng;

impl<E: ProgressEmitter> FlushHook<(), E> for SetupPng {
    fn call(
        &mut self,
        _state: &mut (),
        ctx: &mut PipelineContext,
        _emitter: &mut E,
    ) -> Result<Option<Vec<u8>>, PipelineError> {
        let mut meta = VideoMetadata::default();
        meta.base.content_type = Some("image/png".to_string());
        meta.base.total_size_bytes = 100;
        ctx.insert(ContextValue::Video(meta));
        Ok(None)
    }
}

fn meta_with(content_type: Option<&str>, size: u64) -> VideoMetadata {
    let mut meta = VideoMetadata::default();
    meta.base.content_type = content_type.map(|s| s.to_string());
    meta.base.total_size_bytes = size;
    meta
}

fn failure_reason(res: Result<(), PipelineError>) -> String {
    match res {
        Err(PipelineError::OperatorFailed { operator_name, reason }) => {
            assert_eq!(operator_name, "validate_video_metadata");
            reason
        }
        other => panic!("Erro inesperado: {:?}", other),
    }
}

#[test]
fn test_validator_video_passes_for_valid_mp4() {
    let mp4_data = b"\x00\x00\x00\x1cftypisom\x00\x00\x02\x00isomiso2avc1mp41payload_content";

    let pipe = StreamPipe::with_operators(vec![
        BoxedOperator::new(extract_media_metadata()),
        BoxedOperator::new(validate_video_metadata()),
    ]);

    let res = run_stream(pipe, &mp4_data[..], "test_valid_video");
    assert!(res.is_ok());
}

#[test]
fn test_validator_video_fails_on_invalid_mime() {
    let setup = FnOperator::new("setup_ctx").on_complete(SetupPng);

    let pipe = StreamPipe::with_operators(vec![
        BoxedOperator::new(setup),
        BoxedOperator::new(validate_video_metadata()),
    ]);

    let data = b"dummy_png_bytes";
    let res = run_stream(pipe, &data[..], "test_invalid_video");
    assert!(res.is_err());

    match res.unwrap_err() {
        PipelineError::OperatorFailed { operator_name, reason } => {
            assert_eq!(operator_name, "validate_video_metadata");
            assert!(reason.contains("image/png"));
        }
        other => panic!("Erro inesperado: {:?}", other),
    }
}

#[test]
fn test_validator_video_fails_when_no_context() {
    let pipe = StreamPipe::with_operators(vec![BoxedOperator::new(validate_video_metadata())]);

    let data = b"some_data";
    let res = run_stream(pipe, &data[..], "test_no_ctx");
    assert!(res.is_err());

    match res.unwrap_err() {
        PipelineError::OperatorFailed { operator_name, .. } => {
            assert_eq!(operator_name, "validate_video_metadata");
        }
        other => panic!("Erro inesperado: {:?}", other),
    }
}

#[test]
fn validate_refuses_missing_type() {
    let reason = failure_reason(validate(&meta_with(None, 10)));
    assert_eq!(reason, "tipo de conteúdo não detectado");
}

#[test]
fn validate_normalises_before_comparing() {
    assert!(validate(&meta_with(Some("  VIDEO/MP4\t"), 10)).is_ok());
    assert!(validate(&meta_with(Some("video/x-matroska"), 1)).is_ok());
    assert!(validate(&meta_with(Some("video/3gpp"), 1)).is_ok());
}

#[test]
fn validate_refuses_other_types_with_normalised_name() {
    let reason = failure_reason(validate(&meta_with(Some(" Image/PNG "), 10)));
    assert_eq!(reason, "conteúdo não é um vídeo aceito: image/png");
}

#[test]
fn validate_refuses_empty_video() {
    let reason = failure_reason(validate(&meta_with(Some("video/webm"), 0)));
    assert_eq!(reason, "vídeo sem conteúdo");
}

#[test]
fn validate_checks_type_before_size() {
    let reason = failure_reason(validate(&meta_with(Some("text/plain"), 0)));
    assert_eq!(reason, "conteúdo não é um vídeo aceito: text/plain");
}
