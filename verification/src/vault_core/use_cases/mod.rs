pub mod upload_video;
