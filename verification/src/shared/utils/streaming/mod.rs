pub mod context;
pub mod errors;
pub mod pipe;
pub mod traits;
