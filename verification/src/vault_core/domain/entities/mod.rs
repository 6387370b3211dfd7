pub mod video_metadata;
