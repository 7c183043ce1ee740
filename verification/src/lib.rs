//! An algebra of propagating outcome values: result-like containers that a
//! call chain can short-circuit on, generalized to a three-way outcome —
//! success, success-with-diagnostic ("warn"), and failure.
//!
//! A hard failure aborts a chain immediately and is carried to the top; a soft
//! failure (a warning) does not abort the chain but is remembered and surfaced
//! to whoever collects the final result, including when warnings accumulate
//! across a batch of independent operations.

pub mod assertion;
pub mod early;
pub mod warn_result;
