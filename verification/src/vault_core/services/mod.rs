pub mod extract_media_metadata;
pub mod validator_video;
