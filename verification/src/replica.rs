//! The replica's side: what it has applied, and the pipeline that applies
//! the frames it receives.

pub mod error;
pub mod hook;
pub mod injector;
pub mod meta;
