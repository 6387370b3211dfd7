use std::collections::HashMap;
use std::time::{Duration, SystemTime, UNIX_EPOCH};
use vstd::prelude::*;
use vstd::string::StringExecFns;
use crate::vault_core::domain::types::{MediaMetadata, VideoMetadata};

verus! {

#[verifier::external_type_specification]
#[verifier::external_body]
pub struct ExSystemTime(SystemTime);

/// Reads the system clock (`SystemTime::now`). Nothing is claimed of the value: it is
/// the time.
#[verifier::external_body]
fn system_now() -> (r: SystemTime) {
    SystemTime::now()
}

/// The time elapsed from the Unix epoch to `t` (`SystemTime::duration_since`), `None`
/// when `t` is earlier. Nothing is claimed of the value: it depends on the clock reading.
#[verifier::external_body]
fn since_unix_epoch(t: &SystemTime) -> (r: Option<Duration>) {
    t.duration_since(UNIX_EPOCH).ok()
}

/// The whole seconds of `d` (`Duration::as_secs`). Nothing is claimed of the value:
/// nothing here states what a duration holds.
#[verifier::external_body]
fn whole_seconds(d: &Duration) -> (r: u64) {
    d.as_secs()
}

/// The system clock as whole seconds since the Unix epoch, 0 for a clock set before the
/// epoch.
fn unix_time_now() -> (r: u64) {
    let now = system_now();
    match since_unix_epoch(&now) {
        Some(elapsed) => whole_seconds(&elapsed),
        None => 0,
    }
}

impl VideoMetadata {
    /// A record for medium `id` stamped with the given creation time (seconds since the
    /// Unix epoch): no bytes yet, content type `application/octet-stream`.
    pub fn new_at(id: String, duration_seconds_bits: u64, created_at: u64) -> (r: Self)
        ensures
            r.base.id@ == id@,
            r.base.original_name is None,
            r.base.total_size_bytes == 0,
            r.base.content_type matches Some(ct) && ct@ == "application/octet-stream"@,
            r.base.checksum is None,
            r.base.created_at == created_at,
            r.base.attributes@ == Map::<String, String>::empty(),
            r.duration_seconds_bits == duration_seconds_bits,
            r.width is None,
            r.height is None,
            r.fps_bits is None,
            r.timeline_indices@ == Seq::<u32>::empty(),
    {
        VideoMetadata {
            base: MediaMetadata {
                id,
                original_name: None,
                total_size_bytes: 0,
                content_type: Some(String::from_str("application/octet-stream")),
                checksum: None,
                created_at,
                attributes: HashMap::new(),
            },
            duration_seconds_bits,
            width: None,
            height: None,
            fps_bits: None,
            timeline_indices: Vec::new(),
        }
    }

    /// A record for medium `id` created now (system clock); otherwise as `new_at`.
    pub fn new(id: String, duration_seconds_bits: u64) -> (r: Self)
        ensures
            r.base.id@ == id@,
            r.base.original_name is None,
            r.base.total_size_bytes == 0,
            r.base.content_type matches Some(ct) && ct@ == "application/octet-stream"@,
            r.base.checksum is None,
            r.base.attributes@ == Map::<String, String>::empty(),
            r.duration_seconds_bits == duration_seconds_bits,
            r.width is None,
            r.height is None,
            r.fps_bits is None,
            r.timeline_indices@ == Seq::<u32>::empty(),
    {
        let now = unix_time_now();
        Self::new_at(id, duration_seconds_bits, now)
    }

    /// Replaces the content type; nothing else changes.
    pub fn with_content_type(self, content_type: String) -> (r: Self)
        ensures
            r.base.content_type matches Some(ct) && ct@ == content_type@,
            r.base.id == self.base.id,
            r.base.original_name == self.base.original_name,
            r.base.total_size_bytes == self.base.total_size_bytes,
            r.base.checksum == self.base.checksum,
            r.base.created_at == self.base.created_at,
            r.base.attributes == self.base.attributes,
            r.duration_seconds_bits == self.duration_seconds_bits,
            r.width == self.width,
            r.height == self.height,
            r.fps_bits == self.fps_bits,
            r.timeline_indices == self.timeline_indices,
    {
        let mut s = self;
        s.base.content_type = Some(content_type);
        s
    }

    /// Counts `size` more bytes of content.
    pub fn add_bytes(&mut self, size: u64)
        requires
            old(self).base.total_size_bytes + size <= u64::MAX,
        ensures
            final(self).base.total_size_bytes == old(self).base.total_size_bytes + size,
            final(self).base.content_type == old(self).base.content_type,
            final(self).base.id == old(self).base.id,
            final(self).base.original_name == old(self).base.original_name,
            final(self).base.checksum == old(self).base.checksum,
            final(self).base.created_at == old(self).base.created_at,
            final(self).base.attributes == old(self).base.attributes,
            final(self).duration_seconds_bits == old(self).duration_seconds_bits,
            final(self).width == old(self).width,
            final(self).height == old(self).height,
            final(self).fps_bits == old(self).fps_bits,
            final(self).timeline_indices == old(self).timeline_indices,
    {
        self.base.total_size_bytes = self.base.total_size_bytes + size;
    }

    /// Records the checksum; nothing else changes.
    pub fn set_checksum(&mut self, hash: String)
        ensures
            final(self).base.checksum matches Some(h) && h@ == hash@,
            final(self).base.total_size_bytes == old(self).base.total_size_bytes,
            final(self).base.content_type == old(self).base.content_type,
            final(self).base.id == old(self).base.id,
            final(self).base.original_name == old(self).base.original_name,
            final(self).base.created_at == old(self).base.created_at,
            final(self).base.attributes == old(self).base.attributes,
            final(self).duration_seconds_bits == old(self).duration_seconds_bits,
            final(self).width == old(self).width,
            final(self).height == old(self).height,
            final(self).fps_bits == old(self).fps_bits,
            final(self).timeline_indices == old(self).timeline_indices,
    {
        self.base.checksum = Some(hash);
    }

    /// Appends `index` to the timeline indices; nothing else changes.
    pub fn add_partition_index(&mut self, index: u32)
        ensures
            final(self).timeline_indices@ == old(self).timeline_indices@.push(index),
            final(self).base == old(self).base,
            final(self).duration_seconds_bits == old(self).duration_seconds_bits,
            final(self).width == old(self).width,
            final(self).height == old(self).height,
            final(self).fps_bits == old(self).fps_bits,
    {
        self.timeline_indices.push(index);
    }
}

} // verus!
