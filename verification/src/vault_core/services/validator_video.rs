use vstd::prelude::*;
use vstd::string::StringExecFns;
use crate::shared::utils::operators::builder::{
    ContextMap, Finish, FinishHook, FnOperator, NoFlush, NoRecovery, PassThrough,
};
use crate::shared::utils::streaming::context::{ContextKind, ContextValue, PipelineContext};
use crate::shared::utils::streaming::errors::PipelineError;
use crate::shared::utils::streaming::traits::{OperatorCall, ProgressEmitter};
use crate::shared::utils::text::{
    ascii_lowercase, is_white_space, lemma_trimmed, lowered, to_lowercase, trim, trim_bounds,
    trimmed,
};
use crate::vault_core::domain::types::VideoMetadata;
use crate::vault_core::services::extract_media_metadata::{text_view, video_of};

verus! {

/// The video content types the vault accepts.
pub open spec fn is_accepted_video_type(t: Seq<char>) -> bool {
    ||| t == "video/mp4"@
    ||| t == "video/webm"@
    ||| t == "video/quicktime"@
    ||| t == "video/x-matroska"@
    ||| t == "video/x-msvideo"@
    ||| t == "video/x-flv"@
    ||| t == "video/ogg"@
    ||| t == "video/3gpp"@
}

/// A content type as it is compared: without surrounding white space, in lower case.
pub open spec fn normalized_content_type(t: Seq<char>) -> Seq<char> {
    lowered(trimmed(t))
}

/// `r` is the failure of the video validator with text `reason`.
pub open spec fn is_validation_failure(r: Result<(), PipelineError>, reason: Seq<char>) -> bool {
    match r {
        Err(PipelineError::OperatorFailed { operator_name, reason: text }) => operator_name@
            == "validate_video_metadata"@ && text@ == reason,
        _ => false,
    }
}

/// The verdict on a video record with content type `content` and `total` bytes: `None`
/// when the video is accepted, else the reason for refusing it.
pub open spec fn refusal_reason(content: Option<Seq<char>>, total: u64) -> Option<Seq<char>> {
    match content {
        None => Some("tipo de conteúdo não detectado"@),
        Some(t) => if !is_accepted_video_type(normalized_content_type(t)) {
            Some("conteúdo não é um vídeo aceito: "@ + normalized_content_type(t))
        } else if total == 0 {
            Some("vídeo sem conteúdo"@)
        } else {
            None
        },
    }
}

/// A content type written in plain form (ASCII, no upper-case letter, no white space at
/// either end) is its own normalized form.
pub proof fn lemma_plain_type_is_normalized(t: Seq<char>)
    requires
        t.len() > 0,
        !is_white_space(t[0]),
        !is_white_space(t[t.len() - 1]),
        forall|i: int| 0 <= i < t.len() ==> (#[trigger] t[i] as u32) < 65 || (97 <= (t[i] as u32) < 128),
    ensures
        normalized_content_type(t) == t,
{
    assert(trim_bounds(t, 0, t.len() as int));
    assert(t.subrange(0, t.len() as int) =~= t);
    lemma_trimmed(t, t);
    assert(ascii_lowercase(t) =~= t);
}

/// Each of the accepted video types (MP4, WebM, QuickTime, Matroska, AVI, FLV, Ogg,
/// 3GPP), as the extractor records it, is accepted for a video with some bytes.
pub proof fn law_accepted_video_types(total: u64)
    requires
        total > 0,
    ensures
        refusal_reason(Some("video/mp4"@), total) is None,
        refusal_reason(Some("video/webm"@), total) is None,
        refusal_reason(Some("video/quicktime"@), total) is None,
        refusal_reason(Some("video/x-matroska"@), total) is None,
        refusal_reason(Some("video/x-msvideo"@), total) is None,
        refusal_reason(Some("video/x-flv"@), total) is None,
        refusal_reason(Some("video/ogg"@), total) is None,
        refusal_reason(Some("video/3gpp"@), total) is None,
{
    reveal_strlit("video/mp4");
    reveal_strlit("video/webm");
    reveal_strlit("video/quicktime");
    reveal_strlit("video/x-matroska");
    reveal_strlit("video/x-msvideo");
    reveal_strlit("video/x-flv");
    reveal_strlit("video/ogg");
    reveal_strlit("video/3gpp");
    lemma_plain_type_is_normalized("video/mp4"@);
    lemma_plain_type_is_normalized("video/webm"@);
    lemma_plain_type_is_normalized("video/quicktime"@);
    lemma_plain_type_is_normalized("video/x-matroska"@);
    lemma_plain_type_is_normalized("video/x-msvideo"@);
    lemma_plain_type_is_normalized("video/x-flv"@);
    lemma_plain_type_is_normalized("video/ogg"@);
    lemma_plain_type_is_normalized("video/3gpp"@);
}

/// Any other content type is refused, with the reason naming it as normalized; a video
/// of an accepted type with no bytes is refused as empty; a record with no content type
/// is refused as such.
pub proof fn law_other_records_refused(t: Seq<char>, total: u64)
    ensures
        normalized_content_type(t) != "video/mp4"@ && normalized_content_type(t) != "video/webm"@
            && normalized_content_type(t) != "video/quicktime"@ && normalized_content_type(t)
            != "video/x-matroska"@ && normalized_content_type(t) != "video/x-msvideo"@
            && normalized_content_type(t) != "video/x-flv"@ && normalized_content_type(t)
            != "video/ogg"@ && normalized_content_type(t) != "video/3gpp"@ ==> refusal_reason(
            Some(t),
            total,
        ) == Some("conteúdo não é um vídeo aceito: "@ + normalized_content_type(t)),
        normalized_content_type(t) == "video/mp4"@ ==> refusal_reason(Some(t), 0) == Some(
            "vídeo sem conteúdo"@,
        ),
        refusal_reason(None, total) == Some("tipo de conteúdo não detectado"@),
{
}

/// The outcome `r` matches the verdict `reason`.
pub open spec fn verdict_matches(r: Result<(), PipelineError>, reason: Option<Seq<char>>) -> bool {
    match reason {
        None => r is Ok,
        Some(text) => is_validation_failure(r, text),
    }
}

fn is_accepted(t: &String) -> (r: bool)
    ensures
        r == is_accepted_video_type(t@),
{
    String::from_str("video/mp4") == *t || String::from_str("video/webm") == *t || String::from_str(
        "video/quicktime",
    ) == *t || String::from_str("video/x-matroska") == *t || String::from_str("video/x-msvideo")
        == *t || String::from_str("video/x-flv") == *t || String::from_str("video/ogg") == *t
        || String::from_str("video/3gpp") == *t
}

fn failure(reason: String) -> (r: Result<(), PipelineError>)
    ensures
        is_validation_failure(r, reason@),
{
    Err(PipelineError::OperatorFailed { operator_name: "validate_video_metadata", reason })
}

/// Checks that the record describes an accepted, non-empty video: a content type must be
/// known, it must be one of the accepted video types once trimmed and lower-cased, and
/// some bytes must have been received.
pub fn validate(metadata: &VideoMetadata) -> (r: Result<(), PipelineError>)
    ensures
        verdict_matches(
            r,
            refusal_reason(text_view(metadata.base.content_type), metadata.base.total_size_bytes),
        ),
{
    match &metadata.base.content_type {
        None => failure(String::from_str("tipo de conteúdo não detectado")),
        Some(raw) => {
            let trimmed_type = trim(raw.as_str());
            let content_type = to_lowercase(trimmed_type.as_str());
            if !is_accepted(&content_type) {
                let reason = String::from_str("conteúdo não é um vídeo aceito: ").concat(
                    content_type.as_str(),
                );
                failure(reason)
            } else if metadata.base.total_size_bytes == 0 {
                failure(String::from_str("vídeo sem conteúdo"))
            } else {
                Ok(())
            }
        },
    }
}

/// The reason given when the context holds no video record.
pub open spec fn missing_record_reason() -> Seq<char> {
    "VideoMetadata não encontrado no contexto — verifique se 'extract_media_metadata' precede este operador"@
}

/// What the video validator does at the end of the stream: it leaves the context as it
/// is and judges the video record it holds; without one it fails.
pub open spec fn video_checked(c0: ContextMap, c1: ContextMap, r: Result<(), PipelineError>) -> bool {
    &&& c1 == c0
    &&& match video_of(c0) {
        Some(m) => verdict_matches(
            r,
            refusal_reason(text_view(m.base.content_type), m.base.total_size_bytes),
        ),
        None => is_validation_failure(r, missing_record_reason()),
    }
}

/// The end-of-stream check of the video validator.
pub struct ValidateVideo;

impl<E: ProgressEmitter> FinishHook<(), E> for ValidateVideo {
    open spec fn finish_done(
        &self,
        s0: (),
        s1: (),
        c0: ContextMap,
        c1: ContextMap,
        r: Result<(), PipelineError>,
    ) -> bool {
        video_checked(c0, c1, r)
    }

    /// Validates the context's video record; fails when there is none.
    fn call(&mut self, state: &mut (), ctx: &mut PipelineContext, emitter: &mut E) -> (r: Result<
        (),
        PipelineError,
    >) {
        match ctx.get(ContextKind::Video) {
            Some(ContextValue::Video(metadata)) => validate(metadata),
            _ => failure(
                String::from_str(
                    "VideoMetadata não encontrado no contexto — verifique se 'extract_media_metadata' precede este operador",
                ),
            ),
        }
    }
}

/// The video validator: an operator that passes the stream on unchanged and, at its end,
/// checks the video record in the context (`video_checked`). It does not recover from
/// errors.
pub fn validate_video_metadata<E: ProgressEmitter>() -> (r: FnOperator<
    (),
    E,
    PassThrough,
    Finish<ValidateVideo>,
    NoRecovery,
>)
    ensures
        r.spec_name()@ == "validate_video_metadata"@,
        r.spec_next() == PassThrough,
        r.spec_flush() == Finish(ValidateVideo),
        r.spec_recovery() == NoRecovery,
        r.call_record() == Seq::<OperatorCall>::empty(),
{
    FnOperator::<(), E, PassThrough, NoFlush, NoRecovery>::new("validate_video_metadata").validate_it(
        ValidateVideo,
    )
}

} // verus!
