pub mod handlers;
pub mod store;
