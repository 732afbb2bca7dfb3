pub mod laws;
pub mod network;
pub mod types;
