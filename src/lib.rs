//! Routing, formatting and rotation logic of a pluggable logging backend.
//!
//! The library decides which sink receives a record, renders log lines and
//! file names, drives the rotation state of each log file and queues records
//! for file workers. The surrounding program performs the terminal and file
//! I/O.

pub mod config;
pub mod dispatch;
pub mod format;
pub mod level;
pub mod rotation;
pub mod routing;
pub mod sink;
pub mod writer;

pub use config::{init, FileAppenderCfg, InitError, LogitCfg, TermAppenderCfg};
pub use dispatch::{Dispatcher, Route, SinkPolicy};
pub use level::{Level, LevelFilter};
pub use rotation::{dated_filename, first_free_suffix, Day};
pub use routing::should_write;
pub use sink::{Delivery, FileAppender, Message, TermAppender};
pub use writer::{RotationState, Rotation};
