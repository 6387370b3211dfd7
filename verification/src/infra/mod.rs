pub mod adapters;
