pub mod constants;
pub mod containers;
pub mod process_payload_attestation;
pub mod process_payload_bid;
pub mod registry;
pub mod state;
pub mod types;
pub mod withdrawals;
