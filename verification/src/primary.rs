//! The primary's side: the frame log and the logger that feeds it.

pub mod checkpoint;
pub mod frame_stream;
pub mod log_file;
pub mod log_header;
pub mod log_laws;
pub mod log_model;
pub mod logger;
pub mod logger_hook;
pub mod version;
