//! An in-memory relational store with the tables and the transaction rules
//! that publishing and delivery rely on.

pub mod model;
mod rows;
pub mod store;
pub mod table;

pub use rows::addresses;
pub use rows::distinct_addresses;
pub use rows::EmailTask;
pub use rows::NewsletterIssue;
pub use store::Database;
