//! What the service guarantees, proved of the store and of the steps that
//! the endpoints and the workers take on it.

pub mod delivery;
pub mod history;
pub mod idempotency;
pub mod outbox;
pub mod retention;
