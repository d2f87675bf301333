//! Formatting of log lines for a process that hosts several peer-to-peer
//! networks at once.

pub mod compose;
pub mod level;
pub mod logger;
pub mod scope;
pub mod sink;
pub mod text;
pub mod timestamp;
