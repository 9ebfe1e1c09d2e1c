//! Screenshots on a keyboard shortcut, delivered to a terminal session.
//!
//! This library holds the decisions of the program: the life of the background
//! process, the reaction to the shortcut, and the ordered chain of backends
//! that carries a message to the session. It opens no file, sends no signal and
//! drives no window. Where work of that kind is due, a function here says what
//! is to be done; its caller does it and reports what came of it. The library
//! itself looks only at the process table and at the clock.
pub mod cli;
pub mod daemon;
pub mod hotkey;
pub mod keystroke;
pub mod logger;
pub mod router;
pub mod screenshot;
pub mod script;
pub mod service;
pub mod terminal;
pub mod text;
