//! Graceful-shutdown coordination and trace/span correlation.
//!
//! Two independent components, composed by a host process:
//!
//! - [`shutdown::ShutdownCoordinator`] races a set of termination signal
//!   sources and produces a single cancellation event, with teardown run
//!   at most once.
//! - [`correlate`] derives fixed-width lowercase hexadecimal renderings of
//!   trace and span identifiers and attaches them to structured log records.

pub mod correlate;
pub mod hex;
pub mod shutdown;
