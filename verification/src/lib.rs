//! Verified decision logic of a remote-desktop event tracer: decoding of
//! mouse masks, naming of keys, the client-side input state machine, the
//! layout of the per-session event log, and the message handling of the
//! scenario bot that drives a remote session.

pub mod mouse;
pub mod text;
pub mod keys;
pub mod tracer;
pub mod window;
pub mod session_log;
pub mod bot;
pub mod recorder;
