//! Core of a registry-binding layer: a cancellable task-execution session and
//! an error-normalization boundary.
//!
//! The surrounding application re-exposes an external registry manager to a
//! host environment. Every registry operation is driven by a *task runner*
//! that races the operation against a process-wide interrupt signal, and every
//! failure is funnelled through a *normalizer* that renders it, text intact,
//! into one uniform host-facing error shape.
//!
//! This crate holds the verified heart of those two pieces:
//!
//! - [`domain`] models the closed set of error families the operations
//!   produce, each with an exactly specified rendering;
//! - [`runner`] is the race arbiter: which of {operation completion,
//!   interrupt} is observed first fixes the outcome, and the loser can never
//!   change it;
//! - [`outward`] is the normalization boundary: one adaptor per error family,
//!   each proved to preserve the family's rendered text character for
//!   character;
//! - [`download`] holds the two small decisions made around a download: the
//!   registered-label guard and destination defaulting.
//!
//! The unverified glue (the concurrent execution context, the interrupt
//! listener, the host bindings) lives outside this crate and feeds events and
//! errors into these types as plain values.

pub mod domain;
pub mod download;
pub mod outward;
pub mod runner;
