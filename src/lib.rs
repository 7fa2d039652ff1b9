pub mod data;
pub mod error;
pub mod store;
