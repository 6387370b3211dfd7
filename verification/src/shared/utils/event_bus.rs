use vstd::prelude::*;
use vstd::string::StringExecFns;
use crate::shared::utils::streaming::pipe::ProgressEvent;

verus! {

/// An event about the processing of a medium, as published to listeners. A progress
/// event counts the completed steps out of the total; the share done is their ratio.
#[derive(Debug, Clone)]
pub enum MediaEvent {
    Progress {
        media_id: String,
        state: String,
        message: String,
        completed_steps: u64,
        total_steps: u64,
    },
    Completed { media_id: String, vault_path: String, total_bytes: u64 },
    Failed { media_id: String, error: String },
}

/// The event published for a progress notification of a pipeline step.
pub fn progress_event(e: ProgressEvent) -> (r: MediaEvent)
    ensures
        r matches MediaEvent::Progress { media_id, state, message, completed_steps, total_steps }
            && media_id@ == e.media_id@ && state@ == e.state.spec_label() && message@ == e.message@
            && completed_steps == e.completed_steps && total_steps == e.total_steps,
{
    let state = String::from_str(e.state.label());
    MediaEvent::Progress {
        media_id: e.media_id,
        state,
        message: e.message,
        completed_steps: e.completed_steps as u64,
        total_steps: e.total_steps as u64,
    }
}

} // verus!
