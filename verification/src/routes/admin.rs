//! What the operator's pages decide.

pub mod password;
