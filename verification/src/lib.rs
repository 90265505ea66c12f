//! A minimal desktop application shell, verified.
//!
//! The shell registers a fixed list of capability plugins with its host
//! framework and wires a single startup event: a ready signal, emitted by the
//! embedded web content, that closes the splash window and reveals the main
//! window.  This crate holds the decisions that wiring makes — which plugins
//! are registered, and what one delivery of the ready signal does to the two
//! windows — as verified functions; the host framework's event loop drives
//! them from outside.

pub mod plugins;
pub mod startup;
