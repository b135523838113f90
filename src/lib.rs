//! Decisions of an in-place updater for a macOS application: which external
//! commands to run, with which arguments, and in which order.
pub mod command;
pub mod session;
