use sx_vault_media::shared::utils::streaming::traits::BoxedOperator;
use sx_vault_media::shared::utils::streaming::context::{ContextKind, ContextValue, PipelineContext};
use sx_vault_media::shared::utils::streaming::traits::{NoOpEmitter, StreamOperator};
use sx_vault_media::vault_core::use_cases::upload_video::video_upload_pipe;
use sx_vault_media::shared::utils::streaming::errors::PipelineError;
use sx_vault_media::shared::utils::streaming::pipe::{ContextualEmitter, PipeRun, StreamPipe};
use sx_vault_media::vault_core::domain::types::VideoMetadata;
use sx_vault_media::vault_core::services::extract_media_metadata::{
    extract_media_metadata, note_chunk, ExtractorState,
};

fn run_and_read(data: &[u8], media_id: &str, chunk_size: usize) -> (Result<u64, PipelineError>, Option<VideoMetadata>) {
    let extractor = extract_media_metadata::<ContextualEmitter>();
    let pipe = StreamPipe::with_operators(vec![BoxedOperator::new(extractor)]);
    let mut run = PipeRun::start(pipe, media_id.to_string());
    let mut result = None;
    for chunk in data.chunks(chunk_size) {
        if let Some(r) = run.feed(chunk) {
            result = Some(r);
            break;
        }
    }
    let result = match result {
        Some(r) => r,
        None => run.finish(),
    };
    let meta = match run.context().get(ContextKind::Video) {
        Some(ContextValue::Video(m)) => Some(m.clone()),
        _ => None,
    };
    (result, meta)
}

#[test]
fn test_extract_media_metadata_mp4_container() {
    let mp4_data = b"\x00\x00\x00\x1cftypisom\x00\x00\x02\x00isomiso2avc1mp41payload_content";

    let (res, meta) = run_and_read(&mp4_data[..], "media_extract_123", 16384);
    assert!(res.is_ok());

    let meta = meta.unwrap();
    assert_eq!(meta.base.content_type.as_deref(), Some("video/mp4"));
    assert_eq!(meta.base.total_size_bytes, mp4_data.len() as u64);
}

#[test]
fn test_extract_media_metadata_webm_container() {
    let webm_data = b"\x1A\x45\xDF\xA3\x99\x42\x86\x81\x01\x42\xF7\x81\x01payload";

    let (res, meta) = run_and_read(&webm_data[..], "media_extract_webm", 16384);
    assert!(res.is_ok());

    let meta = meta.unwrap();
    assert_eq!(meta.base.content_type.as_deref(), Some("video/webm"));
}

#[test]
fn extractor_counts_bytes_across_chunks() {
    let mut data = b"\x00\x00\x00\x1cftypisom\x00\x00\x02\x00isomiso2avc1mp41".to_vec();
    data.extend(std::iter::repeat(7u8).take(10_000));
    let (res, meta) = run_and_read(&data, "chunked", 5);
    assert_eq!(res.unwrap(), data.len() as u64);
    let meta = meta.unwrap();
    assert_eq!(meta.base.total_size_bytes, data.len() as u64);
    assert_eq!(meta.base.content_type.as_deref(), Some("video/mp4"));
}

#[test]
fn extractor_falls_back_to_octet_stream() {
    let (res, meta) = run_and_read(b"plain words, no known signature", "text", 16384);
    assert!(res.is_ok());
    assert_eq!(
        meta.unwrap().base.content_type.as_deref(),
        Some("application/octet-stream")
    );
}

#[test]
fn extractor_on_empty_stream_leaves_type_unknown() {
    let (res, meta) = run_and_read(b"", "empty", 16384);
    assert_eq!(res.unwrap(), 0);
    let meta = meta.unwrap();
    assert_eq!(meta.base.content_type, None);
    assert_eq!(meta.base.total_size_bytes, 0);
}

#[test]
fn extractor_header_keeps_at_most_4096_bytes() {
    let mut state = ExtractorState::new();
    state.absorb(&[1u8; 3000]);
    assert_eq!(state.header_bytes().len(), 3000);
    state.absorb(&[2u8; 3000]);
    assert_eq!(state.header_bytes().len(), 4096);
    assert_eq!(state.header_bytes()[2999], 1);
    assert_eq!(state.header_bytes()[3000], 2);
    state.absorb(&[3u8; 10]);
    assert_eq!(state.header_bytes().len(), 4096);
    assert_eq!(state.header_bytes()[4095], 2);
}

#[test]
fn extractor_keeps_first_recognised_type() {
    let mut meta = VideoMetadata::default();
    let mp4 = b"\x00\x00\x00\x1cftypisom\x00\x00\x02\x00isomiso2avc1mp41";
    let found = note_chunk(&mut meta, &mp4[..], mp4.len());
    assert_eq!(found.as_deref(), Some("video/mp4"));
    let png = b"\x89PNG\r\n\x1a\n\x00\x00\x00\x0dIHDR";
    let found = note_chunk(&mut meta, &png[..], png.len());
    assert_eq!(found, None);
    assert_eq!(meta.base.content_type.as_deref(), Some("video/mp4"));
    assert_eq!(meta.base.total_size_bytes, (mp4.len() + png.len()) as u64);
}

#[test]
fn extractor_recognises_from_header_not_single_chunk() {
    let mp4 = b"\x00\x00\x00\x1cftypisom\x00\x00\x02\x00isomiso2avc1mp41rest";
    let (res, meta) = run_and_read(&mp4[..], "tiny_chunks", 3);
    assert_eq!(res.unwrap(), mp4.len() as u64);
    assert_eq!(meta.unwrap().base.content_type.as_deref(), Some("video/mp4"));
}

#[test]
fn extractor_adds_to_an_existing_count() {
    let mut op = extract_media_metadata::<NoOpEmitter>();
    let mut ctx = PipelineContext::new();
    let mut start = VideoMetadata::default();
    start.base.total_size_bytes = 10;
    ctx.insert(ContextValue::Video(start));
    let mut em = NoOpEmitter;
    assert!(op.process(Some(b"abc"), &mut ctx, &mut em).is_ok());
    assert!(op.process(Some(b"defg"), &mut ctx, &mut em).is_ok());
    match ctx.get(ContextKind::Video) {
        Some(ContextValue::Video(m)) => assert_eq!(m.base.total_size_bytes, 17),
        other => panic!("unexpected: {:?}", other),
    }
}

#[test]
fn upload_pipe_holds_extractor_then_validator() {
    let pipe = video_upload_pipe::<NoOpEmitter>();
    let names: Vec<&str> = pipe.operators().iter().map(|b| b.op.name()).collect();
    assert_eq!(names, vec!["extract_media_metadata", "validate_video_metadata"]);
}
