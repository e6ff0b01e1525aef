//! Diagnostic engine for a boot-console hardware test jig.
//!
//! The engine watches the boot-loader console of a device under test over an
//! unreliable, timeout-prone serial link, accumulates the fragmented byte
//! stream into a cleaned transcript, and classifies that transcript against an
//! ordered list of expected/forbidden substrings to produce a single
//! pass/fail diagnosis with operator instructions.
//!
//! Everything that decides — text cleaning, substring matching, the polling
//! state machine, and the ordered fail-fast check evaluation — lives here and
//! is verified.  The serial transport itself, the persisted configuration
//! file, and the operator-facing front end are thin unverified glue around
//! this crate: they hand the engine plain values (received text chunks) and
//! perform the sends that the engine asks for.

pub mod analyzer;
pub mod config;
pub mod driver;
pub mod engine;
pub mod ident;
pub mod text;
