//! A minimal command-line tool skeleton: a sign-dispatched addition command,
//! tiered diagnostics configuration, and the text the tool prints.
//!
//! The crate holds the tool's decisions and text as verified functions; the
//! process edge (argument parsing, log sinks, printing) lives outside it and
//! hands these functions plain values.

pub mod add;
pub mod cli;
pub mod text;
pub mod version;

pub use version::get_version_fancy;
