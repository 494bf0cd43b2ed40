//! A terminal work/break interval timer: its settings, its session state
//! machine, its log records and the text it draws, with their contracts.

pub mod text;
pub mod glyph;
pub mod config;
pub mod session;
pub mod clock;
pub mod log;
pub mod timer;
pub mod laws;
pub mod behaviour;
