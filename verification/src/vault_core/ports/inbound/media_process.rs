use vstd::prelude::*;

verus! {

/// A request to process a medium.
pub struct MediaProcessCommand {
    pub media_id: String,
    pub original_name: Option<String>,
    pub expected_content_type: Option<String>,
}

/// The outcome of processing a medium.
pub struct MediaProcessResult {
    pub media_id: String,
    pub vault_path: String,
    pub total_bytes_processed: u64,
    pub is_success: bool,
}

} // verus!
