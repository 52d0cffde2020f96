//! Change detection and debouncing for a watch-and-rerun tool, together with the
//! decisions of the supervisor that runs the command.
//!
//! Time is a count of ticks of one fixed unit, chosen by the caller and used for
//! instants and durations alike. Instants are counted from an origin that the
//! caller fixes once.

pub mod buffer;
pub mod clock;
pub mod command;
pub mod debounce;
pub mod event;
pub mod filter;
pub mod orchestrator;
pub mod output;
pub mod shell;
pub mod supervisor;
