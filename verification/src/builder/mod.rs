pub mod bid;
pub mod envelope;
pub mod guide;
