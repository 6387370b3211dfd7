pub mod stream;

use vstd::prelude::*;
use crate::shared::utils::event_bus::MediaEvent;
use crate::vault_core::domain::errors::DomainError;
use crate::vault_core::ports::inbound::media_process::MediaProcessResult;

verus! {

/// The event that announces how the processing of medium `media_id` ended.
pub fn completion_event(media_id: String, outcome: Result<MediaProcessResult, DomainError>) -> (r:
    MediaEvent)
    ensures
        match outcome {
            Ok(res) => r matches MediaEvent::Completed { media_id: id, vault_path, total_bytes }
                && id@ == media_id@ && vault_path@ == res.vault_path@ && total_bytes
                == res.total_bytes_processed,
            Err(e) => r matches MediaEvent::Failed { media_id: id, error } && id@ == media_id@
                && error@ == e.spec_message(),
        },
{
    match outcome {
        Ok(res) => MediaEvent::Completed {
            media_id,
            vault_path: res.vault_path,
            total_bytes: res.total_bytes_processed,
        },
        Err(e) => MediaEvent::Failed { media_id, error: e.message() },
    }
}

} // verus!
