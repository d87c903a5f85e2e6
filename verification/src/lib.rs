//! Newsletter delivery with idempotent publishing, a transactional outbox and
//! a delivery worker.

pub mod authentication;
pub mod configuration;
pub mod database;
pub mod db_config;
pub mod domain;
pub mod email_client;
pub mod error;
pub mod guarantees;
pub mod idempotency;
pub mod idempotency_remover_worker;
pub mod issue_delivery_worker;
pub mod routes;
pub mod startup;

pub use error::e400;
pub use error::e500;
pub use error::error_chain_fmt;
