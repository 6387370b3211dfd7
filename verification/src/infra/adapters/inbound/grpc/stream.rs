use vstd::prelude::*;
use vstd::string::StringExecFns;
use crate::shared::utils::event_bus::MediaEvent;
use crate::shared::utils::text::{decimal, decimal_string};

verus! {

/// The final report of an upload.
pub struct UploadReply {
    pub id: String,
    pub vault_path: String,
    pub success: bool,
}

/// A progress message for a client: the share done is `done / total` of the work.
pub struct ProgressReply {
    pub id: String,
    pub state: String,
    pub message: String,
    pub final_result: Option<UploadReply>,
    pub done: u64,
    pub total: u64,
}

/// The message reporting a successful upload of `total_bytes` bytes.
pub open spec fn success_message(total_bytes: u64) -> Seq<char> {
    "Processado com sucesso ("@ + decimal(total_bytes as nat) + " bytes)"@
}

/// The event concerns medium `target`.
pub open spec fn concerns(event: MediaEvent, target: Seq<char>) -> bool {
    match event {
        MediaEvent::Progress { media_id, .. } => media_id@ == target,
        MediaEvent::Completed { media_id, .. } => media_id@ == target,
        MediaEvent::Failed { media_id, .. } => media_id@ == target,
    }
}

/// `reply` is the client message for `event`.
pub open spec fn reply_for(event: MediaEvent, reply: ProgressReply) -> bool {
    match event {
        MediaEvent::Progress { media_id, state, message, completed_steps, total_steps } => {
            &&& reply.id@ == media_id@
            &&& reply.state@ == state@
            &&& reply.message@ == message@
            &&& reply.final_result is None
            &&& reply.done == completed_steps
            &&& reply.total == total_steps
        },
        MediaEvent::Completed { media_id, vault_path, total_bytes } => {
            &&& reply.id@ == media_id@
            &&& reply.state@ == "COMPLETED"@
            &&& reply.message@ == success_message(total_bytes)
            &&& reply.final_result matches Some(fr) && fr.id@ == media_id@ && fr.vault_path@
                == vault_path@ && fr.success
            &&& reply.done == 1 && reply.total == 1
        },
        MediaEvent::Failed { media_id, error } => {
            &&& reply.id@ == media_id@
            &&& reply.state@ == "FAILED"@
            &&& reply.message@ == error@
            &&& reply.final_result is None
            &&& reply.done == 0 && reply.total == 1
        },
    }
}

fn is_target(media_id: &String, target: &str) -> (r: bool)
    ensures
        r == (media_id@ == target@),
{
    String::from_str(target) == *media_id
}

/// The message a client following medium `target_media_id` receives for `event`:
/// nothing for an event about another medium.
pub fn progress_reply_for(event: &MediaEvent, target_media_id: &str) -> (r: Option<ProgressReply>)
    ensures
        concerns(*event, target_media_id@) <==> r is Some,
        r matches Some(reply) ==> reply_for(*event, reply),
{
    match event {
        MediaEvent::Progress { media_id, state, message, completed_steps, total_steps } => {
            if is_target(media_id, target_media_id) {
                Some(
                    ProgressReply {
                        id: media_id.clone(),
                        state: state.clone(),
                        message: message.clone(),
                        final_result: None,
                        done: *completed_steps,
                        total: *total_steps,
                    },
                )
            } else {
                None
            }
        },
        MediaEvent::Completed { media_id, vault_path, total_bytes } => {
            if is_target(media_id, target_media_id) {
                let amount = decimal_string(*total_bytes);
                let message = String::from_str("Processado com sucesso (").concat(
                    amount.as_str(),
                ).concat(" bytes)");
                Some(
                    ProgressReply {
                        id: media_id.clone(),
                        state: String::from_str("COMPLETED"),
                        message,
                        final_result: Some(
                            UploadReply {
                                id: media_id.clone(),
                                vault_path: vault_path.clone(),
                                success: true,
                            },
                        ),
                        done: 1,
                        total: 1,
                    },
                )
            } else {
                None
            }
        },
        MediaEvent::Failed { media_id, error } => {
            if is_target(media_id, target_media_id) {
                Some(
                    ProgressReply {
                        id: media_id.clone(),
                        state: String::from_str("FAILED"),
                        message: error.clone(),
                        final_result: None,
                        done: 0,
                        total: 1,
                    },
                )
            } else {
                None
            }
        },
    }
}

} // verus!
