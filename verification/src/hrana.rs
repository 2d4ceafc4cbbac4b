//! The client protocol by which statements reach a database.

pub mod proto;
