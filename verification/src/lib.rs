//! Core of a desktop script-runner: resolving a usable process environment
//! from a login shell's sentinel-tagged output, locating the Kotlin compiler
//! across common install layouts, and driving one execution session per
//! request as a state machine that streams child-process output to a sink.
//!
//! All process, file and UI interaction lives outside this crate; the
//! functions here compute decisions and notification text from plain values.

pub mod env_resolve;
pub mod locator;
pub mod messages;
pub mod session;
pub mod trace;
