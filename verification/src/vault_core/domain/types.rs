use std::collections::HashMap;
use vstd::prelude::*;

verus! {

/// What the vault records about any stored medium.
#[derive(Debug, Clone, PartialEq)]
pub struct MediaMetadata {
    pub id: String,
    pub original_name: Option<String>,
    pub total_size_bytes: u64,
    pub content_type: Option<String>,
    pub checksum: Option<String>,
    pub created_at: u64,
    pub attributes: HashMap<String, String>,
}

/// What the vault records about a video. The duration (seconds) and the frame rate are
/// IEEE-754 numbers, held here by their bit patterns (`f64::to_bits`, `f32::to_bits`).
#[derive(Debug, Clone, PartialEq)]
pub struct VideoMetadata {
    pub base: MediaMetadata,
    pub duration_seconds_bits: u64,
    pub width: Option<u32>,
    pub height: Option<u32>,
    pub fps_bits: Option<u32>,
    pub timeline_indices: Vec<u32>,
}

impl MediaMetadata {
    /// The empty record: every text empty or absent, every number zero.
    pub open spec fn is_blank(&self) -> bool {
        &&& self.id@ == Seq::<char>::empty()
        &&& self.original_name is None
        &&& self.total_size_bytes == 0
        &&& self.content_type is None
        &&& self.checksum is None
        &&& self.created_at == 0
        &&& self.attributes@ == Map::<String, String>::empty()
    }
}

impl VideoMetadata {
    /// The empty record (`Default`).
    pub open spec fn is_blank(&self) -> bool {
        &&& self.base.is_blank()
        &&& self.duration_seconds_bits == 0
        &&& self.width is None
        &&& self.height is None
        &&& self.fps_bits is None
        &&& self.timeline_indices@ == Seq::<u32>::empty()
    }
}

impl Default for MediaMetadata {
    fn default() -> (r: Self)
        ensures
            r.is_blank(),
    {
        MediaMetadata {
            id: String::new(),
            original_name: None,
            total_size_bytes: 0,
            content_type: None,
            checksum: None,
            created_at: 0,
            attributes: HashMap::new(),
        }
    }
}

impl Default for VideoMetadata {
    fn default() -> (r: Self)
        ensures
            r.is_blank(),
    {
        VideoMetadata {
            base: MediaMetadata::default(),
            duration_seconds_bits: 0,
            width: None,
            height: None,
            fps_bits: None,
            timeline_indices: Vec::new(),
        }
    }
}

} // verus!
