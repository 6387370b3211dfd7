pub mod builder;
pub mod extractor;
pub mod loader;
pub mod transformer;
pub mod validator;

pub use builder::FnOperator;
