//! Sequence of unique numeric ids handed out from a counter in table storage.
pub mod error;
pub mod synccounterstore;

pub use self::error::IdSequenceError;
pub use self::synccounterstore::{SyncCounterConfig, SyncCounterStore};
