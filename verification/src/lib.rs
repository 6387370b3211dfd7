pub mod infra;
pub mod shared;
pub mod vault_core;
