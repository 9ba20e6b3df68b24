pub mod bytes;
pub mod crypto;
pub mod ssz;
