//! A skip graph node: identifiers and membership vectors, the lookup table, the local
//! search and link decisions, and the handling of the messages that join and search.
//!
//! Nodes perform no input or output. They say what they want sent and which waiting caller
//! they want resumed, and a driver does so.
pub mod context;
pub mod lookup;
pub mod model;
pub mod network;
pub mod node;
pub mod observability;
pub mod text;

pub use context::IrrevocableContext;
pub use lookup::ArrayLookupTable;
pub use lookup::LinkOutcome;
pub use lookup::LookupError;
pub use lookup::LookupTable;
pub use lookup::LookupTableLevel;
pub use lookup::RelinkOutcome;
pub use lookup::LOOKUP_TABLE_LEVELS;
pub use model::address::Address;
pub use model::direction::Direction;
pub use model::identifier::Identifier;
pub use model::identity::Identity;
pub use model::join::BuddyReq;
pub use model::join::CheckNeighborReq;
pub use model::join::LinkReq;
pub use model::join::LinkRes;
pub use model::join::MaxLevelReq;
pub use model::join::MaxLevelRes;
pub use model::join::NeighborReq;
pub use model::join::NeighborRes;
pub use model::memvec::MembershipVector;
pub use model::search::IdSearchReq;
pub use model::search::IdSearchRes;
pub use model::search::Nonce;
pub use network::Event;
pub use network::EventProcessorCore;
pub use network::Network;
pub use network::NetworkError;
pub use node::base_core::BaseCore;
pub use node::base_node::BaseNode;
pub use node::error::NodeError;
