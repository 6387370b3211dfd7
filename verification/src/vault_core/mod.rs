pub mod domain;
pub mod ports;
pub mod services;
pub mod use_cases;
