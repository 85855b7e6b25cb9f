pub mod types;
pub mod header;
pub mod req;
