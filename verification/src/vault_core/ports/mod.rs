pub mod inbound;
