use sx_vault_media::shared::utils::streaming::errors::PipelineError;
use sx_vault_media::vault_core::domain::errors::DomainError;
use sx_vault_media::vault_core::ports::inbound::media_process::MediaProcessCommand;
use sx_vault_media::vault_core::use_cases::upload_video::{upload_video, UploadVideoUseCase};

fn upload(data: &[u8], media_id: &str) -> Result<u64, PipelineError> {
    let mut run = upload_video(media_id.to_string());
    for chunk in data.chunks(16384) {
        if let Some(result) = run.feed(chunk) {
            return result;
        }
    }
    run.finish()
}

#[test]
fn test_upload_video_success() {
    let dummy_mp4 = b"\x00\x00\x00\x1cftypisom\x00\x00\x02\x00isomiso2avc1mp41payload_data_here";

    let res = upload(&dummy_mp4[..], "vid_123");
    assert!(res.is_ok());
    assert_eq!(res.unwrap(), dummy_mp4.len() as u64);
}

#[test]
fn test_upload_video_invalid_format_fails() {
    let dummy_text = b"this is not a valid video stream";

    let res = upload(&dummy_text[..], "vid_invalid");
    assert!(res.is_err());
}

#[test]
fn upload_of_empty_stream_fails_without_type() {
    match upload(b"", "vid_empty") {
        Err(PipelineError::OperatorFailed { operator_name, reason }) => {
            assert_eq!(operator_name, "validate_video_metadata");
            assert_eq!(reason, "tipo de conteúdo não detectado");
        }
        other => panic!("unexpected: {:?}", other),
    }
}

#[test]
fn upload_records_progress_of_each_step() {
    let dummy_mp4 = b"\x00\x00\x00\x1cftypisom\x00\x00\x02\x00isomiso2avc1mp41payload";
    let mut run = upload_video("vid_events".to_string());
    assert!(run.feed(&dummy_mp4[..]).is_none());
    assert_eq!(run.finish().unwrap(), dummy_mp4.len() as u64);
    let events = run.take_events();
    let labels: Vec<(String, usize, usize)> = events
        .iter()
        .map(|e| (e.message.clone(), e.completed_steps, e.total_steps))
        .collect();
    assert_eq!(
        labels,
        vec![
            ("Iniciando processamento...".to_string(), 0, 2),
            ("Container identificado: video/mp4".to_string(), 0, 2),
            ("Metadados finalizados: video/mp4".to_string(), 1, 2),
            ("Etapa 'extract_media_metadata' finalizada com sucesso".to_string(), 1, 2),
            ("Etapa 'validate_video_metadata' finalizada com sucesso".to_string(), 2, 2),
        ]
    );
    assert!(events.iter().all(|e| e.media_id == "vid_events"));
    assert!(run.take_events().is_empty());
}

#[test]
fn conclude_reports_vault_path_or_failure() {
    let use_case = UploadVideoUseCase::new();
    let command = MediaProcessCommand {
        media_id: "abc".to_string(),
        original_name: None,
        expected_content_type: None,
    };
    let ok = use_case.conclude(&command, Ok(42)).ok().unwrap();
    assert_eq!(ok.media_id, "abc");
    assert_eq!(ok.vault_path, "/vault/storage/abc");
    assert_eq!(ok.total_bytes_processed, 42);
    assert!(ok.is_success);

    let err = use_case
        .conclude(&command, Err(PipelineError::Io("broken pipe".to_string())))
        .err()
        .unwrap();
    assert_eq!(
        err,
        DomainError::PipelineProcessingFailed("Erro de I/O: broken pipe".to_string())
    );
}
