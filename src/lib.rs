//! Driver for a UART-attached CSR8645 Bluetooth audio module that speaks an
//! AT-command protocol.
//!
//! The crate performs no I/O itself. `codec` turns typed commands into wire
//! frames and module replies into typed responses; `driver` sequences one
//! exchange at a time as a state machine that asks its caller to write or read
//! the serial link and is told what happened.
pub mod codec;
pub mod command;
pub mod driver;
pub mod error;
pub mod laws;
pub mod text;
