//! Supervision of upscaler child processes for a desktop front-end: the
//! command line handed to each child, the pool sweep that turns liveness
//! probes into events, the bounded activity log, and the small rules the
//! front-end applies before it starts a batch.

pub mod checker;
pub mod command_line;
pub mod drain;
pub mod filename;
pub mod log;
pub mod numerals;
pub mod panel;
pub mod pool;
pub mod settings;
pub mod text;
