//! Idempotent handling of repeated publish requests.

pub mod key;
pub mod persistence;

pub use key::IdempotencyKey;
pub use key::KeyError;
pub use persistence::CachedResponse;
pub use persistence::HeaderPairRecord;
pub use persistence::RecordError;
pub use persistence::try_processing;
pub use persistence::NextAction;
pub use persistence::ResponseNotSaved;
