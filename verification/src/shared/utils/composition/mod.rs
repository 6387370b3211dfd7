pub mod loader;
pub mod traits;
pub mod transformer;
pub mod validator;

pub use loader::FnLoader;
pub use traits::{Loader, Transformer, Validator};
pub use transformer::FnTransformer;
pub use validator::FnValidator;
