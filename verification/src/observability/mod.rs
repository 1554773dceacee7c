//! The interface through which nodes record metrics.
//!
//! Every metric method returns nothing: recording a metric cannot fail or influence what
//! is measured. Labels are closed enums, never identifiers or other unbounded values.
pub mod labels;
pub mod metrics;

pub use labels::LevelBucket;
pub use labels::MessageType;
pub use labels::SearchOutcome;
