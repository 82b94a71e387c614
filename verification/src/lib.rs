//! Verified core of a UCI (Universal Chess Interface) engine driver.
//!
//! The library holds the protocol parser, the shared engine state with its
//! merge semantics, and the decision logic of the engine facade (command
//! texts, phase transitions, bounded state-wait polling). Process spawning
//! and the async I/O loops live outside the library and call into it with
//! plain values.

pub mod cli;
pub mod engine;
pub mod parse;
pub mod text;
