//! A verified core for a terminal line echoer: a byte-level control-stream
//! interpreter, the line/cursor model it drives, the full-line render
//! protocol, and the orchestrator step that relays bytes between a child
//! process and the host terminal.

pub mod event;
pub mod line;
pub mod parser;
pub mod render;
pub mod session;
