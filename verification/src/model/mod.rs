//! The values that nodes hold and exchange.
pub mod address;
pub mod direction;
pub mod identifier;
pub mod identity;
pub mod join;
pub mod memvec;
pub mod search;

pub use identifier::IDENTIFIER_SIZE_BYTES;
