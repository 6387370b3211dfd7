use vstd::prelude::*;
use vstd::string::StringExecFns;
use crate::shared::utils::streaming::context::{ContextKind, ContextValue};
use crate::shared::utils::streaming::errors::PipelineError;
use crate::shared::utils::streaming::pipe::{ContextualEmitter, PipeRun, StreamPipe};
use crate::shared::utils::streaming::traits::{BoxedOperator, OperatorCall, ProgressEmitter, StepState, StreamOperator};
use crate::vault_core::domain::errors::DomainError;
use crate::vault_core::ports::inbound::media_process::{MediaProcessCommand, MediaProcessResult};
use crate::shared::utils::operators::builder::ContextMap;
use crate::vault_core::domain::types::VideoMetadata;
use crate::vault_core::services::extract_media_metadata::{
    chunk_extracted, extract_media_metadata, extraction, extraction_settled, final_content,
    law_count_is_stream_length, law_extractor_follows_extraction, record_of, record_settled,
    starting_record, stream_of, video_of, ExtractorState,
};
use crate::vault_core::services::validator_video::{
    is_accepted_video_type, normalized_content_type, refusal_reason, validate_video_metadata,
    verdict_matches, video_checked,
};

verus! {

/// The pipe a video upload runs through: the metadata extractor, then the video
/// validator.
pub fn video_upload_pipe<E: ProgressEmitter + 'static>() -> (r: StreamPipe<E>)
    ensures
        r.spec_name()@ == "stream_pipe"@,
        r.ops().len() == 2,
        r.ops()[0].op.op_name()@ == "extract_media_metadata"@,
        r.ops()[1].op.op_name()@ == "validate_video_metadata"@,
        !r.ops()[0].op.is_pass_through(),
        r.ops()[1].op.is_pass_through(),
        r.ops()[0].op.calls() == Seq::<OperatorCall>::empty(),
        r.ops()[1].op.calls() == Seq::<OperatorCall>::empty(),
{
    let extractor = BoxedOperator::new(extract_media_metadata::<E>());
    let validator = BoxedOperator::new(validate_video_metadata::<E>());
    let operators: Vec<BoxedOperator<E>> = vec![extractor, validator];
    StreamPipe::with_operators(operators)
}

/// Starts the upload of medium `media_id`: a run of the video upload pipe. The caller
/// feeds it the stream's chunks and then finishes it; its result is the number of bytes
/// received.
pub fn upload_video(media_id: String) -> (r: PipeRun)
    ensures
        r.spec_total_bytes() == 0,
        !r.is_ended(),
        r.spec_media_id() == media_id@,
        r.spec_pipe().spec_name()@ == "stream_pipe"@,
        r.spec_pipe().ops().len() == 2,
        r.recorded().len() == 1,
        r.recorded()[0].state == StepState::Started,
        r.recorded()[0].message@ == "Iniciando processamento..."@,
        r.recorded()[0].completed_steps == 0,
        r.recorded()[0].total_steps == 2,
        r.recorded()[0].media_id@ == media_id@,
        r.spec_context()@ == Map::<ContextKind, ContextValue>::empty(),
{
    PipeRun::start(video_upload_pipe::<ContextualEmitter>(), media_id)
}

/// The verdict of the video upload pipe on a stream cut into `chunks`: what its extractor
/// gathers, settled at the end of the stream, judged by its validator. `None` accepts.
pub open spec fn upload_verdict(chunks: Seq<Seq<u8>>) -> Option<Seq<char>> {
    let (total, content, header) = extraction(chunks);
    refusal_reason(final_content(content, header), total)
}

/// An empty stream is refused: no content type can be found in it.
pub proof fn law_empty_upload_refused(chunks: Seq<Seq<u8>>)
    requires
        stream_of(chunks).len() == 0,
    ensures
        upload_verdict(chunks) == Some("tipo de conteúdo não detectado"@),
{
    lemma_empty_stream_extraction(chunks);
}

proof fn lemma_empty_stream_extraction(chunks: Seq<Seq<u8>>)
    requires
        stream_of(chunks).len() == 0,
    ensures
        extraction(chunks).1 is None,
        extraction(chunks).2.len() == 0,
    decreases chunks.len(),
{
    if chunks.len() > 0 {
        lemma_empty_stream_extraction(chunks.drop_last());
    }
}

/// A non-empty stream always ends with a content type, and it is accepted exactly when
/// that type, trimmed and lower-cased, is one of the accepted video types.
pub proof fn law_nonempty_upload_verdict(chunks: Seq<Seq<u8>>)
    requires
        stream_of(chunks).len() > 0,
    ensures
        final_content(extraction(chunks).1, extraction(chunks).2) is Some,
        upload_verdict(chunks) is None <==> is_accepted_video_type(
            normalized_content_type(final_content(extraction(chunks).1, extraction(chunks).2).unwrap()),
        ),
{
    crate::vault_core::services::extract_media_metadata::law_header_is_stream_start(chunks);
    law_count_is_stream_length(chunks);
}

/// What the video upload pipe decides about a stream: once its extractor has run on each
/// of `chunks` (states `states`, contexts `ctxs`, from an empty header and a blank
/// record) and settled at the end of the stream (leaving `settled`), its validator's
/// check of that context ends with `r` exactly as `upload_verdict(chunks)` says.
pub proof fn law_upload_checks_extraction(
    chunks: Seq<Seq<u8>>,
    states: Seq<ExtractorState>,
    ctxs: Seq<ContextMap>,
    end_state: ExtractorState,
    settled: ContextMap,
    checked: ContextMap,
    r: Result<(), PipelineError>,
)
    requires
        states.len() == chunks.len() + 1,
        ctxs.len() == chunks.len() + 1,
        states[0].header() == Seq::<u8>::empty(),
        record_of(ctxs[0]) == (0u64, None::<Seq<char>>),
        forall|i: int|
            0 <= i < chunks.len() ==> #[trigger] chunk_extracted(
                chunks[i],
                states[i],
                states[i + 1],
                ctxs[i],
                ctxs[i + 1],
                Ok(()),
            ),
        extraction_settled(states.last(), end_state, ctxs.last(), settled, Ok(())),
        video_checked(settled, checked, r),
    ensures
        verdict_matches(r, upload_verdict(chunks)),
{
    law_extractor_follows_extraction(chunks, states, ctxs);
    let (before, after) = choose|before: VideoMetadata, after: VideoMetadata|
        starting_record(ctxs.last(), before) && record_settled(before, after, states.last().header())
            && settled == ctxs.last().insert(ContextKind::Video, ContextValue::Video(after));
    assert(video_of(settled) == Some(after));
}

/// Where a stored medium lives in the vault.
pub open spec fn vault_path_of(media_id: Seq<char>) -> Seq<char> {
    "/vault/storage/"@ + media_id
}

/// The video upload use case.
pub struct UploadVideoUseCase;

impl UploadVideoUseCase {
    pub fn new() -> (r: Self) {
        UploadVideoUseCase
    }

    /// The answer to `command` once its upload ended with `outcome`: a success names the
    /// vault path and the bytes processed; a pipeline failure becomes a processing
    /// failure carrying the pipeline error's text.
    pub fn conclude(&self, command: &MediaProcessCommand, outcome: Result<u64, PipelineError>) -> (r:
        Result<MediaProcessResult, DomainError>)
        ensures
            match outcome {
                Ok(total) => r matches Ok(res) && res.media_id@ == command.media_id@
                    && res.vault_path@ == vault_path_of(command.media_id@)
                    && res.total_bytes_processed == total && res.is_success,
                Err(e) => r matches Err(DomainError::PipelineProcessingFailed(msg)) && msg@
                    == e.spec_message(),
            },
    {
        match outcome {
            Ok(total) => Ok(
                MediaProcessResult {
                    media_id: command.media_id.clone(),
                    vault_path: String::from_str("/vault/storage/").concat(
                        command.media_id.as_str(),
                    ),
                    total_bytes_processed: total,
                    is_success: true,
                },
            ),
            Err(e) => Err(DomainError::PipelineProcessingFailed(e.message())),
        }
    }
}

impl Default for UploadVideoUseCase {
    fn default() -> (r: Self) {
        Self::new()
    }
}

} // verus!
