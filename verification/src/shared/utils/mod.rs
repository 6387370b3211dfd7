pub mod composition;
pub mod event_bus;
pub mod operators;
pub mod streaming;
pub mod text;
