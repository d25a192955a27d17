//! Natively owned objects exposed to a garbage-collected script runtime: handles,
//! dynamic borrow tracking, per-type dispatch tables, user values and finalization.

pub mod borrow;
pub mod error;
pub mod value;
pub mod heap;
pub mod registry;
pub mod runtime;
pub mod laws;

