//! An adapter that lets a blocking-style protocol engine run inside a
//! poll-based, cooperatively scheduled execution model.
//!
//! The engine is written against a plain synchronous byte-stream interface
//! and knows nothing of suspension. The driver, on the other side, works in
//! a poll model: an operation either finishes at once or reports "not ready"
//! and is resumed later through a per-call suspension handle.
//!
//! Two pieces bridge the gap. [`compat::AllowStd`] dresses a poll-driven
//! stream up as a synchronous one: for the duration of one driving call it
//! holds the caller's suspension handle in a transient slot, and it reports
//! a pending probe to the engine as the conventional would-block error code.
//! [`outcome::cvt`] translates the engine's final result back into the
//! driver's ready/not-ready shape, passing every genuine outcome through
//! unchanged and turning exactly the would-block failure into "not ready".

pub mod compat;
pub mod outcome;
