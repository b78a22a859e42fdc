//! A verified model of a minimal desktop-application bootstrap.
//!
//! The library has two parts: `config` describes the one window the
//! application opens (its label, title, size and platform-dependent
//! chrome), and `boot` is the state machine that drives startup —
//! register the capability plugins, build the window, apply the
//! cosmetic patch where one is due, and hand control to the run loop.
//! The GUI runtime itself is I/O and lives outside this crate; a host
//! program executes the actions the machine hands out and reports each
//! outcome back as an event.

pub mod boot;
pub mod config;
