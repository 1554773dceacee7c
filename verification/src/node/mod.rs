//! A node: its local decisions, its outstanding requests and its message handling.
pub mod answer_laws;
pub mod base_core;
pub mod base_node;
pub mod error;
pub mod laws;
pub mod protocol;
pub mod request;
pub mod request_laws;
pub mod waiter;
