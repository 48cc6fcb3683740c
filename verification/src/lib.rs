//! A dual-backend command execution and streaming engine for a firmware
//! update tool: it shapes command invocations for a local host or a remote
//! device reached over a secure shell, interprets the captured results of
//! short-lived commands, merges the output of a long-running install into
//! one tagged line sequence with a single terminal marker, and verifies
//! file transfers by size comparison.

pub mod transport;
pub mod engine;
pub mod runner;
pub mod decimal;
pub mod transfer;
