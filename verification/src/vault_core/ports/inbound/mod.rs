pub mod media_process;
